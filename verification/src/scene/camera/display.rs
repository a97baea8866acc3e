//! The display a camera renders to: a resolution in whole pixels.

use vstd::prelude::*;
use crate::math::DISPLAY_MAX;

verus! {

/// A display resolution in pixels.
#[derive(Clone, Copy, Debug, PartialEq, Eq, Structural)]
pub struct Display {
    pub width: usize,
    pub height: usize,
}

impl Display {
    /// The resolution stays small enough for pixel coordinates to fit
    /// comfortably in signed 64-bit arithmetic.
    pub open spec fn wf(self) -> bool {
        self.width <= DISPLAY_MAX && self.height <= DISPLAY_MAX
    }

    /// Builds a display; resolutions are capped at [`DISPLAY_MAX`] pixels
    /// on each side.
    pub fn new(width: usize, height: usize) -> (d: Display)
        ensures
            d.width == if width <= DISPLAY_MAX { width as int } else { DISPLAY_MAX as int },
            d.height == if height <= DISPLAY_MAX { height as int } else { DISPLAY_MAX as int },
            d.wf(),
    {
        let w: usize = if width <= DISPLAY_MAX { width } else { DISPLAY_MAX };
        let h: usize = if height <= DISPLAY_MAX { height } else { DISPLAY_MAX };
        Display { width: w, height: h }
    }
}

} // verus!
