use vstd::prelude::*;
use crate::color::Color;

verus! {

/// The renderer capability the loop core draws through. The loop calls
/// `end` once per iteration after the hosted render callback, and
/// `resize` when a window-resize event arrives; the callback itself
/// issues `begin` and `quad`. Implementations live outside this core
/// (a graphics-API binding in the host program, a recorder in a test),
/// so no behaviour is promised of them here.
pub trait RenderSurface {
    /// Clears the target to `clear_color` and binds per-frame draw
    /// state; call once before any drawing of the frame.
    fn begin(&mut self, clear_color: Color);

    /// Draws one filled rectangle at `position` with extent `size`, in
    /// surface pixels; callers keep it between `begin` and `end`.
    fn quad(&mut self, position: (i32, i32), size: (i32, i32), color: Color);

    /// Presents the completed frame; exactly once per iteration, after
    /// all drawing.
    fn end(&mut self);

    /// Recomputes the projection mapping for the current surface size.
    fn resize(&mut self);
}

} // verus!
