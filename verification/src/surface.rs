//! The presentation surface.
//!
//! The surface owns the presentable target bound to the window: its size,
//! its negotiated color format and its present mode.  It must be configured
//! once before first use and reconfigured whenever the window size changes
//! or the target is lost; the `generation` counter counts exactly the
//! configurations issued, so contracts can say how often the GPU surface
//! was rebuilt.  The driver mirrors every configuration onto the real GPU
//! surface.

use vstd::prelude::*;
use crate::format::{ColorFormat, PresentMode, negotiate_format, negotiated_format};

verus! {

/// The presentable target bound to the window.
#[derive(Clone, Copy, Debug, PartialEq, Eq, Structural)]
pub struct Surface {
    /// Drawable width in pixels; never zero.
    pub width: u32,
    /// Drawable height in pixels; never zero.
    pub height: u32,
    /// The color format negotiated with the adapter.
    pub format: ColorFormat,
    pub present_mode: PresentMode,
    /// Whether `configure` has run since creation.
    pub configured: bool,
    /// How many configurations have been issued to the GPU surface.
    pub generation: u64,
}

impl Surface {
    /// A zero-area surface cannot be presented to.
    pub open spec fn wf(self) -> bool {
        self.width >= 1 && self.height >= 1
    }

    /// Create the surface description for a window of the given size,
    /// negotiating the color format from what the adapter supports.
    /// Returns nothing only when the adapter supports no format at all.
    pub fn new(
        width: u32,
        height: u32,
        supported_formats: &Vec<ColorFormat>,
        preferred_format: Option<ColorFormat>,
        present_mode: PresentMode,
    ) -> (r: Option<Surface>)
        requires
            width >= 1,
            height >= 1,
        ensures
            r is Some <==> supported_formats@.len() > 0,
            r matches Some(s) ==> {
                &&& s == (Surface {
                    width,
                    height,
                    format: s.format,
                    present_mode,
                    configured: false,
                    generation: 0u64,
                })
                &&& Some(s.format) == negotiated_format(supported_formats@, preferred_format)
                &&& s.wf()
            },
    {
        match negotiate_format(supported_formats, preferred_format) {
            Some(format) => Some(
                Surface { width, height, format, present_mode, configured: false, generation: 0 },
            ),
            None => None,
        }
    }

    /// Configure the surface for its device: one configuration is issued.
    pub fn configure(&mut self)
        requires
            old(self).generation < u64::MAX,
        ensures
            *final(self) == (Surface {
                configured: true,
                generation: (old(self).generation + 1) as u64,
                ..*old(self)
            }),
    {
        self.configured = true;
        self.generation = self.generation + 1;
    }

    /// Reconfigure the surface for a new drawable size.  Calling this with
    /// a zero-area size is a safety violation: the contract excludes it.
    pub fn update(&mut self, width: u32, height: u32)
        requires
            width >= 1,
            height >= 1,
            old(self).generation < u64::MAX,
        ensures
            *final(self) == (Surface {
                width,
                height,
                configured: true,
                generation: (old(self).generation + 1) as u64,
                ..*old(self)
            }),
            final(self).wf(),
    {
        self.width = width;
        self.height = height;
        self.configured = true;
        self.generation = self.generation + 1;
    }
}

} // verus!
