//! Color formats, present modes and the clear color.
//!
//! The surface negotiates its color format from the list the adapter
//! supports: a preferred format wins when the adapter offers it, otherwise
//! the first sRGB-encoded 8-bit format, otherwise the adapter's first
//! choice.  Colors are carried as integer millionths of full intensity so
//! that the contracts can speak about them exactly.

use vstd::prelude::*;

verus! {

/// One million: the fixed-point scale used for color channels and other
/// unit-interval quantities in this crate.
pub const UNIT_SCALE: u32 = 1_000_000;

/// The texel formats this renderer distinguishes.
#[derive(Clone, Copy, Debug, PartialEq, Eq, Structural)]
pub enum ColorFormat {
    Rgba8Unorm,
    Rgba8UnormSrgb,
    Bgra8Unorm,
    Bgra8UnormSrgb,
    Rgba16Float,
    Depth32Float,
}

/// An sRGB-encoded format with 8 bits per channel: the kind the surface
/// prefers when the adapter offers one.
pub open spec fn is_srgb_8bit(f: ColorFormat) -> bool {
    f == ColorFormat::Rgba8UnormSrgb || f == ColorFormat::Bgra8UnormSrgb
}

/// How the surface paces presentation: Fifo blocks on vertical sync,
/// Immediate never does, Mailbox is the hybrid of the two.
#[derive(Clone, Copy, Debug, PartialEq, Eq, Structural)]
pub enum PresentMode {
    Fifo,
    Immediate,
    Mailbox,
}

/// An RGBA clear color; each channel holds millionths of full intensity,
/// from 0 to `UNIT_SCALE`.
#[derive(Clone, Copy, Debug, PartialEq, Eq, Structural)]
pub struct ClearColor {
    pub r: u32,
    pub g: u32,
    pub b: u32,
    pub a: u32,
}

impl ClearColor {
    /// Every channel within the unit interval.
    pub open spec fn wf(self) -> bool {
        self.r <= UNIT_SCALE && self.g <= UNIT_SCALE && self.b <= UNIT_SCALE && self.a
            <= UNIT_SCALE
    }

    /// Opaque white, the default clear color.
    pub fn white() -> (c: ClearColor)
        ensures
            c == (ClearColor { r: UNIT_SCALE, g: UNIT_SCALE, b: UNIT_SCALE, a: UNIT_SCALE }),
            c.wf(),
    {
        ClearColor { r: UNIT_SCALE, g: UNIT_SCALE, b: UNIT_SCALE, a: UNIT_SCALE }
    }
}

/// The first sRGB 8-bit format at or after index `i`, if any.
pub open spec fn first_srgb_from(s: Seq<ColorFormat>, i: int) -> Option<ColorFormat>
    decreases s.len() - i,
    when 0 <= i <= s.len()
{
    if i >= s.len() {
        None
    } else if is_srgb_8bit(s[i]) {
        Some(s[i])
    } else {
        first_srgb_from(s, i + 1)
    }
}

/// The format negotiation settles on, as a mathematical function: the
/// preferred format when supported, else the first sRGB 8-bit format, else
/// the adapter's first choice; nothing only when nothing is supported.
pub open spec fn negotiated_format(s: Seq<ColorFormat>, preferred: Option<ColorFormat>) -> Option<
    ColorFormat,
> {
    if s.len() == 0 {
        None
    } else if preferred matches Some(p) && s.contains(p) {
        preferred
    } else {
        match first_srgb_from(s, 0) {
            Some(f) => Some(f),
            None => Some(s[0]),
        }
    }
}

/// True when `supported` has `f` among its elements.
fn contains_format(supported: &Vec<ColorFormat>, f: ColorFormat) -> (r: bool)
    ensures
        r <==> supported@.contains(f),
{
    let mut i: usize = 0;
    while i < supported.len()
        invariant
            i <= supported@.len(),
            forall|j: int| 0 <= j < i ==> supported@[j] != f,
        decreases supported@.len() - i,
    {
        if supported[i] == f {
            assert(supported@.contains(f));
            return true;
        }
        i = i + 1;
    }
    false
}

/// The format the surface settles on.
///
/// A preferred format wins when the adapter supports it; otherwise the
/// first sRGB 8-bit format the adapter offers; otherwise the adapter's
/// first supported format.  Only an adapter with no supported format at
/// all yields `None`.
pub fn negotiate_format(supported: &Vec<ColorFormat>, preferred: Option<ColorFormat>) -> (r:
    Option<ColorFormat>)
    ensures
        r == negotiated_format(supported@, preferred),
        r is Some <==> supported@.len() > 0,
        (preferred matches Some(p) && supported@.contains(p)) ==> r == preferred,
        (supported@.len() > 0 && !(preferred matches Some(p) && supported@.contains(p))) ==> {
            &&& (exists|i: int|
                0 <= i < supported@.len() && is_srgb_8bit(supported@[i])) ==> (exists|i: int|
                {
                    &&& 0 <= i < supported@.len()
                    &&& r == Some(supported@[i])
                    &&& is_srgb_8bit(supported@[i])
                    &&& forall|j: int| 0 <= j < i ==> !is_srgb_8bit(#[trigger] supported@[j])
                })
            &&& (forall|i: int|
                0 <= i < supported@.len() ==> !is_srgb_8bit(#[trigger] supported@[i])) ==> r
                == Some(supported@[0])
        },
{
    if supported.len() == 0 {
        return None;
    }
    if let Some(p) = preferred {
        if contains_format(supported, p) {
            return Some(p);
        }
    }
    let mut i: usize = 0;
    while i < supported.len()
        invariant
            i <= supported@.len(),
            supported@.len() > 0,
            preferred matches Some(p) ==> !supported@.contains(p),
            forall|j: int| 0 <= j < i ==> !is_srgb_8bit(#[trigger] supported@[j]),
            first_srgb_from(supported@, 0) == first_srgb_from(supported@, i as int),
        decreases supported@.len() - i,
    {
        let f = supported[i];
        if matches!(f, ColorFormat::Rgba8UnormSrgb) || matches!(f, ColorFormat::Bgra8UnormSrgb) {
            return Some(f);
        }
        i = i + 1;
    }
    Some(supported[0])
}

} // verus!
