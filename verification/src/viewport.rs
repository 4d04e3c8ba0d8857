use crate::context::{Driver, Gl, GlEvent};
use vstd::prelude::*;

verus! {

/// The rectangle of the window, in pixels, that normalized device
/// coordinates are mapped to.
#[derive(Clone, Copy, Debug, PartialEq, Eq, Structural)]
pub struct Viewport {
    pub x: i32,
    pub y: i32,
    pub w: i32,
    pub h: i32,
}

impl Viewport {
    /// The viewport that covers a window of the given size.
    pub fn for_window(w: i32, h: i32) -> (v: Viewport)
        ensures
            v == (Viewport { x: 0, y: 0, w, h }),
    {
        Viewport { x: 0, y: 0, w, h }
    }

    /// Follows a resize of the window: the size changes, the corner stays.
    pub fn update_size(&mut self, w: i32, h: i32)
        ensures
            *final(self) == (Viewport { w, h, ..*old(self) }),
    {
        self.w = w;
        self.h = h;
    }

    /// Makes this the rectangle that is drawn to.
    pub fn set_used<D: Driver>(&self, gl: &mut Gl<D>)
        ensures
            final(gl).journal() == old(gl).journal().push(
                GlEvent::Viewport { x: self.x, y: self.y, width: self.w, height: self.h },
            ),
    {
        gl.viewport(self.x, self.y, self.w, self.h);
    }
}

} // verus!
