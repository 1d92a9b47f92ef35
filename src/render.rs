use vstd::prelude::*;
use crate::input::KeyCode;

verus! {

/// A symbolic input event forwarded to the renderer.
#[derive(Clone, Copy, Debug, PartialEq, Eq)]
pub enum Input {
    MouseMove((u32, u32)),
    LeftClick((u32, u32)),
    RightClick((u32, u32)),
    KeyDown(KeyCode),
}

/// The size that the renderer's drawing surface is configured for.
#[derive(Clone, Copy, Debug, PartialEq, Eq, Structural)]
pub struct Viewport {
    pub width: u32,
    pub height: u32,
}

impl Viewport {
    pub fn new(size: (u32, u32)) -> (r: Viewport)
        ensures
            r.width == size.0 && r.height == size.1,
    {
        Viewport { width: size.0, height: size.1 }
    }

    /// Takes a new surface size. A size with a zero dimension is ignored and
    /// leaves the viewport unchanged; any other is adopted. Returns whether
    /// the surface must be reconfigured.
    pub fn resize(&mut self, new_size: (u32, u32)) -> (reconfigure: bool)
        ensures
            reconfigure == (new_size.0 > 0 && new_size.1 > 0),
            reconfigure ==> final(self).width == new_size.0 && final(self).height == new_size.1,
            !reconfigure ==> *final(self) == *old(self),
    {
        if new_size.0 > 0 && new_size.1 > 0 {
            self.width = new_size.0;
            self.height = new_size.1;
            true
        } else {
            false
        }
    }
}

} // verus!
