//! The power-of-two texture resource cache.
//!
//! The renderer binds one texture slot and pre-allocates a GPU texture for
//! every power-of-two size class up to the device's maximum texture
//! dimension, trading startup cost and memory for an allocation-free steady
//! state.  This module owns the cache's shape: a square table indexed by
//! `[width_class][height_class]`, one cell per class pair, holding the
//! exact descriptor of the texture that cell backs.  A mirrored table of
//! bind-group descriptors wraps each cell's texture with the pipeline's
//! texture-and-sampler layout.  The driver allocates one GPU texture and
//! one bind group per cell, following these tables.

use vstd::prelude::*;
use vstd::arithmetic::power2::pow2;
use crate::format::ColorFormat;
use crate::size_class::size_class;

verus! {

/// The descriptor of one cached texture: its identity is the pair of
/// power-of-two classes, and its extent is exactly those powers of two.
#[derive(Clone, Copy, Debug, PartialEq, Eq, Structural)]
pub struct TextureImageMetadatas {
    pub width_class: u32,
    pub height_class: u32,
    pub width: u32,
    pub height: u32,
    pub format: ColorFormat,
}

/// The descriptor of the bind group wrapping one cached texture with the
/// pipeline's texture-and-sampler layout; it mirrors the cell it wraps.
#[derive(Clone, Copy, Debug, PartialEq, Eq, Structural)]
pub struct TextureBindGroupMetadatas {
    pub width_class: u32,
    pub height_class: u32,
}

/// The descriptor of the depth-comparison texture, sized to the window.
#[derive(Clone, Copy, Debug, PartialEq, Eq, Structural)]
pub struct TextureDepthMetadatas {
    pub width: u32,
    pub height: u32,
}

/// The format every depth texture uses.
pub open spec fn depth_format() -> ColorFormat {
    ColorFormat::Depth32Float
}

impl TextureDepthMetadatas {
    /// The depth texture descriptor for a drawable of the given size.
    pub fn new(width: u32, height: u32) -> (r: TextureDepthMetadatas)
        ensures
            r == (TextureDepthMetadatas { width, height }),
    {
        TextureDepthMetadatas { width, height }
    }
}

/// The cache table's shape and contents: square with one row per class,
/// and the cell at `[i][j]` holds exactly the `2^i` by `2^j` texture of
/// the given format, identified by the pair `(i, j)`.
pub open spec fn image_cache_wf(
    t: Seq<Vec<TextureImageMetadatas>>,
    format: ColorFormat,
    qty: nat,
) -> bool {
    &&& t.len() == qty
    &&& forall|i: int| 0 <= i < qty ==> (#[trigger] t[i])@.len() == qty
    &&& forall|i: int, j: int|
        0 <= i < qty && 0 <= j < qty ==> {
            &&& (#[trigger] t[i]@[j]).width_class == i
            &&& t[i]@[j].height_class == j
            &&& t[i]@[j].width == pow2(i as nat)
            &&& t[i]@[j].height == pow2(j as nat)
            &&& t[i]@[j].format == format
        }
}

/// The bind-group table mirrors the image table cell for cell: same shape,
/// and each cell wraps the texture of the cell it stands beside.
pub open spec fn bind_group_cache_mirrors(
    b: Seq<Vec<TextureBindGroupMetadatas>>,
    t: Seq<Vec<TextureImageMetadatas>>,
) -> bool {
    &&& b.len() == t.len()
    &&& forall|i: int| 0 <= i < t.len() ==> (#[trigger] b[i])@.len() == t[i]@.len()
    &&& forall|i: int, j: int|
        0 <= i < t.len() && 0 <= j < t[i]@.len() ==> {
            &&& (#[trigger] b[i]@[j]).width_class == t[i]@[j].width_class
            &&& b[i]@[j].height_class == t[i]@[j].height_class
        }
}

/// Look a cached texture up by its class pair.  The cell is a function of
/// the table and the pair alone, so repeated lookups for the same classes
/// return the identical resource.
pub fn get_texture_image_metadatas<'a>(
    cache: &'a Vec<Vec<TextureImageMetadatas>>,
    width_class: usize,
    height_class: usize,
) -> (r: &'a TextureImageMetadatas)
    requires
        width_class < cache@.len(),
        height_class < cache@[width_class as int]@.len(),
    ensures
        *r == cache@[width_class as int]@[height_class as int],
{
    &cache[width_class][height_class]
}

/// Within the cache bound, every pair of size classes owns exactly one
/// cell: the cell at that index carries the pair, and no other cell does.
pub proof fn lemma_cache_exactly_one(
    t: Seq<Vec<TextureImageMetadatas>>,
    format: ColorFormat,
    qty: nat,
    wc: int,
    hc: int,
)
    requires
        image_cache_wf(t, format, qty),
        0 <= wc < qty,
        0 <= hc < qty,
    ensures
        t[wc]@[hc].width_class == wc,
        t[wc]@[hc].height_class == hc,
        forall|i: int, j: int|
            0 <= i < qty && 0 <= j < qty && (#[trigger] t[i]@[j]).width_class == wc
                && t[i]@[j].height_class == hc ==> i == wc && j == hc,
{
}

} // verus!
