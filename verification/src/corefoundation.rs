//! The macOS backend family, present as an explicit stub: its lifecycle and
//! most of its primitives are not implemented, and the two calls it
//! accepts without effect are documented no-ops.

use vstd::prelude::*;
use crate::color::Vec4;
use crate::RenderBatch;
use crate::SizeResult;

verus! {

/// The macOS backend stub; it owns no native resources yet.
#[derive(Clone, Copy, Debug, PartialEq, Eq, Structural)]
pub struct CoreFoundationBackend {}

/// Creates the macOS backend stub.
pub fn create_backend() -> (r: CoreFoundationBackend)
    ensures
        r == (CoreFoundationBackend {  }),
{
    CoreFoundationBackend {  }
}

impl CoreFoundationBackend {
    /// Frame start is not implemented: an explicit stop.
    pub fn begin_draw(&mut self) -> (r: RenderBatch)
        ensures
            r is Unimplemented,
    {
        RenderBatch::Unimplemented
    }

    /// Frame end is not implemented: an explicit stop.
    pub fn flush(&self) -> (r: RenderBatch)
        ensures
            r is Unimplemented,
    {
        RenderBatch::Unimplemented
    }

    /// The size query is not implemented: an explicit stop.
    pub fn get_display_size(&self) -> (r: SizeResult)
        ensures
            r is Unimplemented,
    {
        SizeResult::Unimplemented
    }

    /// Accepted without effect: a documented no-op batch.
    #[allow(unused_variables)]
    pub fn clear(&self, v: Vec4) -> (r: RenderBatch)
        ensures
            r is NoOp,
    {
        RenderBatch::NoOp
    }

    /// The ellipse primitive is not implemented: an explicit stop.
    #[allow(unused_variables)]
    pub fn draw_ellipse(&self, x: i64, y: i64, radius: i64, v: Vec4) -> (r: RenderBatch)
        ensures
            r is Unimplemented,
    {
        RenderBatch::Unimplemented
    }

    /// Accepted without effect: a documented no-op batch.
    #[allow(unused_variables)]
    pub fn draw_rect(&self, left: i64, top: i64, right: i64, bottom: i64, v: Vec4) -> (r:
        RenderBatch)
        ensures
            r is NoOp,
    {
        RenderBatch::NoOp
    }

    /// The line primitive is not implemented: an explicit stop.
    #[allow(unused_variables)]
    pub fn draw_line(&self, x1: i64, y1: i64, x2: i64, y2: i64, stroke: i64, v: Vec4) -> (r:
        RenderBatch)
        ensures
            r is Unimplemented,
    {
        RenderBatch::Unimplemented
    }
}

} // verus!
