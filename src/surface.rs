use vstd::prelude::*;

verus! {

/// The size, in pixels, that the swap chain is configured with.
#[derive(Clone, Copy, Debug, PartialEq, Eq, Structural)]
pub struct SurfaceSize {
    pub width: u32,
    pub height: u32,
}

impl SurfaceSize {
    /// Takes the new size when both dimensions are positive and returns
    /// whether it did, so that the surface is configured again; a zero
    /// dimension leaves the configuration as it was.
    pub fn resize(&mut self, width: u32, height: u32) -> (applied: bool)
        ensures
            applied == (width > 0 && height > 0),
            applied ==> *final(self) == (SurfaceSize { width, height }),
            !applied ==> *final(self) == *old(self),
    {
        if width > 0 && height > 0 {
            self.width = width;
            self.height = height;
            true
        } else {
            false
        }
    }
}

} // verus!
