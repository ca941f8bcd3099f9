//! The Unix backend layer: one closed union over the two backends a Unix
//! handle can select, the rasterizer family on the windowing protocol and
//! the GL/EGL backend on the compositor.

use vstd::prelude::*;
use crate::cairo::{CairoBackend, CairoCmd, create_xlib_backend as cairo_create_xlib_backend};
use crate::color::Vec4;
use crate::geometry::Point2;
use crate::wayland::{EglSetupStep, WaylandBackend, create_wayland_backend as egl_create_wayland_backend};
use crate::BatchSpec;
use crate::RenderBatch;
use crate::SizeResult;
use crate::spec_batch_of;

verus! {

/// The backend a Unix window handle selected.
#[derive(Clone, Copy, Debug)]
pub enum UnixBackend {
    Cairo(CairoBackend),
    Wayland(WaylandBackend),
}

/// Creates the Unix backend for an X11 window: the rasterizer family over
/// the windowing protocol.
pub fn create_xlib_backend(window: u64, width: u32, height: u32) -> (r: (
    UnixBackend,
    Vec<CairoCmd>,
))
    ensures
        r.0 matches UnixBackend::Cairo(cb) && cb == cairo_xlib_state(window, width, height),
        r.1@ == seq![
            CairoCmd::OpenDisplay,
            CairoCmd::CreateSurface { window, width, height },
            CairoCmd::CreateContext,
        ],
{
    let (cb, cmds) = cairo_create_xlib_backend(window, width, height);
    (UnixBackend::Cairo(cb), cmds)
}

/// The rasterizer family state freshly created on an X11 window.
pub open spec fn cairo_xlib_state(window: u64, width: u32, height: u32) -> CairoBackend {
    CairoBackend {
        backend: crate::cairo::CairoTarget::Xlib(
            crate::cairo::XLibBackend { handle: window, width, height, surface_generation: 0 },
        ),
    }
}

/// Creates the Unix backend for a compositor surface: the GL/EGL backend,
/// together with its strictly ordered construction steps.
pub fn create_wayland_backend(surface: usize) -> (r: (UnixBackend, Vec<EglSetupStep>))
    ensures
        r.0 matches UnixBackend::Wayland(wb) && wb == (WaylandBackend {
            surface,
            width: crate::wayland::INITIAL_EGL_SURFACE_SIZE,
            height: crate::wayland::INITIAL_EGL_SURFACE_SIZE,
        }),
        r.1@ == crate::wayland::spec_egl_setup_steps(),
{
    let (wb, steps) = egl_create_wayland_backend(surface);
    (UnixBackend::Wayland(wb), steps)
}

impl UnixBackend {
    /// Whether the generation counter still has headroom.
    pub open spec fn spec_gen_ok(self) -> bool {
        self matches UnixBackend::Cairo(cb) ==> cb.spec_gen_ok()
    }

    /// The state after a frame start; the compositor backend ignores the
    /// queried geometry, its surface size being fixed at construction.
    pub open spec fn spec_begun(self, width: u32, height: u32) -> UnixBackend {
        match self {
            UnixBackend::Cairo(cb) => UnixBackend::Cairo(cb.spec_begun(width, height)),
            UnixBackend::Wayland(_) => self,
        }
    }

    /// The batch a frame start returns.
    pub open spec fn spec_begin_batch(self, width: u32, height: u32) -> BatchSpec {
        match self {
            UnixBackend::Cairo(cb) => cb.spec_begin_batch(width, height),
            UnixBackend::Wayland(_) => BatchSpec::Egl(
                seq![
                    crate::wayland::EglCmd::DispatchPending,
                    crate::wayland::EglCmd::ClearColor { r: 255, g: 255, b: 255, a: 255 },
                    crate::wayland::EglCmd::ClearColorBuffer,
                ],
            ),
        }
    }

    /// The batch a frame end returns.
    pub open spec fn spec_flush_batch(self) -> BatchSpec {
        match self {
            UnixBackend::Cairo(cb) => cb.spec_flush_batch(),
            UnixBackend::Wayland(_) => BatchSpec::Egl(seq![crate::wayland::EglCmd::SwapBuffers]),
        }
    }

    /// The answer of a size query.
    pub open spec fn spec_size_value(self, width: u32, height: u32) -> SizeResult {
        match self {
            UnixBackend::Cairo(cb) => cb.spec_size_value(width, height),
            UnixBackend::Wayland(_) => SizeResult::Unimplemented,
        }
    }

    /// The batch a full-surface clear returns: on the compositor backend
    /// the clear color is set to the caller's channels and the color
    /// buffer cleared.
    pub open spec fn spec_clear_batch(self, width: u32, height: u32, v: Vec4) -> BatchSpec {
        match self {
            UnixBackend::Cairo(cb) => cb.spec_clear_batch(width, height, v),
            UnixBackend::Wayland(_) => BatchSpec::Egl(
                seq![
                    crate::wayland::EglCmd::ClearColor { r: v.0, g: v.1, b: v.2, a: v.3 },
                    crate::wayland::EglCmd::ClearColorBuffer,
                ],
            ),
        }
    }

    /// The batch an ellipse fill returns.
    pub open spec fn spec_ellipse_batch(self, point: Point2<i64>, radius: i64, v: Vec4) -> BatchSpec {
        match self {
            UnixBackend::Cairo(cb) => cb.spec_ellipse_batch(point, radius, v),
            UnixBackend::Wayland(_) => BatchSpec::Unimplemented,
        }
    }

    /// The batch a rectangle fill returns.
    pub open spec fn spec_rectangle_batch(self, point1: Point2<i64>, point2: Point2<i64>, v: Vec4) -> BatchSpec {
        match self {
            UnixBackend::Cairo(cb) => cb.spec_rectangle_batch(point1, point2, v),
            UnixBackend::Wayland(_) => BatchSpec::Unimplemented,
        }
    }

    /// The batch a rounded-rectangle fill returns.
    pub open spec fn spec_rounded_rectangle_batch(
        self,
        point1: Point2<i64>,
        point2: Point2<i64>,
        radius: i64,
        v: Vec4,
    ) -> BatchSpec {
        match self {
            UnixBackend::Cairo(cb) => cb.spec_rounded_rectangle_batch(point1, point2, radius, v),
            UnixBackend::Wayland(_) => BatchSpec::Unimplemented,
        }
    }

    /// The batch a line stroke returns.
    pub open spec fn spec_line_batch(
        self,
        point1: Point2<i64>,
        point2: Point2<i64>,
        stroke: i64,
        v: Vec4,
    ) -> BatchSpec {
        match self {
            UnixBackend::Cairo(cb) => cb.spec_line_batch(point1, point2, stroke, v),
            UnixBackend::Wayland(_) => BatchSpec::Unimplemented,
        }
    }

    /// Starts a frame; the compositor backend needs no geometry reading.
    pub fn begin_draw(&mut self, width: u32, height: u32) -> (r: RenderBatch)
        requires
            old(self).spec_gen_ok(),
        ensures
            *final(self) == old(self).spec_begun(width, height),
            spec_batch_of(r) == old(self).spec_begin_batch(width, height),
    {
        match &mut *self {
            UnixBackend::Cairo(cb) => cb.begin_draw(width, height),
            UnixBackend::Wayland(wb) => RenderBatch::Egl(wb.begin_draw()),
        }
    }

    /// Ends a frame.
    pub fn flush(&self) -> (r: RenderBatch)
        ensures
            spec_batch_of(r) == self.spec_flush_batch(),
    {
        match self {
            UnixBackend::Cairo(cb) => cb.flush(),
            UnixBackend::Wayland(wb) => RenderBatch::Egl(wb.flush()),
        }
    }

    /// Answers a size query from the freshly queried geometry.
    pub fn get_display_size(&self, width: u32, height: u32) -> (r: SizeResult)
        ensures
            r == self.spec_size_value(width, height),
    {
        match self {
            UnixBackend::Cairo(cb) => cb.get_display_size(width, height),
            UnixBackend::Wayland(wb) => wb.get_display_size(),
        }
    }

    /// Clears the full surface.
    pub fn clear(&self, width: u32, height: u32, v: Vec4) -> (r: RenderBatch)
        ensures
            spec_batch_of(r) == self.spec_clear_batch(width, height, v),
    {
        match self {
            UnixBackend::Cairo(cb) => cb.clear(width, height, v),
            UnixBackend::Wayland(wb) => RenderBatch::Egl(wb.clear(v)),
        }
    }

    /// Fills an ellipse.
    pub fn ellipse(&self, point: Point2<i64>, radius: i64, v: Vec4) -> (r: RenderBatch)
        requires
            i64::MIN <= point.0 + radius <= i64::MAX,
            i64::MIN <= point.1 + radius <= i64::MAX,
        ensures
            spec_batch_of(r) == self.spec_ellipse_batch(point, radius, v),
    {
        match self {
            UnixBackend::Cairo(cb) => cb.ellipse(point, radius, v),
            UnixBackend::Wayland(wb) => wb.draw_primitive(),
        }
    }

    /// Fills a rectangle.
    pub fn rectangle(&self, point1: Point2<i64>, point2: Point2<i64>, v: Vec4) -> (r: RenderBatch)
        ensures
            spec_batch_of(r) == self.spec_rectangle_batch(point1, point2, v),
    {
        match self {
            UnixBackend::Cairo(cb) => cb.rectangle(point1, point2, v),
            UnixBackend::Wayland(wb) => wb.draw_primitive(),
        }
    }

    /// Fills a rounded rectangle.
    pub fn rounded_rectangle(
        &self,
        point1: Point2<i64>,
        point2: Point2<i64>,
        radius: i64,
        v: Vec4,
    ) -> (r: RenderBatch)
        requires
            i64::MIN <= point1.0 + point2.0 - radius <= i64::MAX,
            i64::MIN <= point1.1 + point2.1 - radius <= i64::MAX,
            i64::MIN <= point1.0 + point2.0 <= i64::MAX,
            i64::MIN <= point1.1 + point2.1 <= i64::MAX,
            i64::MIN <= point1.0 + radius <= i64::MAX,
            i64::MIN <= point1.1 + radius <= i64::MAX,
        ensures
            spec_batch_of(r) == self.spec_rounded_rectangle_batch(point1, point2, radius, v),
    {
        match self {
            UnixBackend::Cairo(cb) => cb.rounded_rectangle(point1, point2, radius, v),
            UnixBackend::Wayland(wb) => wb.draw_primitive(),
        }
    }

    /// Strokes a line.
    pub fn line(&self, point1: Point2<i64>, point2: Point2<i64>, stroke: i64, v: Vec4) -> (r:
        RenderBatch)
        ensures
            spec_batch_of(r) == self.spec_line_batch(point1, point2, stroke, v),
    {
        match self {
            UnixBackend::Cairo(cb) => cb.line(point1, point2, stroke, v),
            UnixBackend::Wayland(wb) => wb.draw_primitive(),
        }
    }
}

} // verus!
