//! A cross-platform layer over native 2D drawing APIs: a caller hands in an
//! opaque window handle, the dispatcher selects exactly one backend for it,
//! and drawing happens in frames bracketed between a begin and a flush.
//!
//! Every backend is a state machine over plain values. An operation takes
//! the fresh platform readings it depends on (the shell performs the native
//! queries) and returns the exact batch of native calls the shell must
//! issue; the contracts pin both the state transition and the batch.

use vstd::prelude::*;

pub mod cairo;
pub mod color;
pub mod corefoundation;
pub mod dx2d;
pub mod gdi;
pub mod geometry;
pub mod handle;
pub mod primitive;
pub mod unix;
pub mod wayland;
pub mod web;

use crate::cairo::{CairoCmd, CairoTarget};
use crate::color::{BrushSpec, Paint, spec_vec4_of};
use crate::dx2d::{CapStyle, ClientRect, D2dCmd, Direct2DBackend, StrokeStyleSpec, spec_rect_wf};
use crate::handle::{BlyError, WindowHandle, spec_supported};
use crate::unix::{UnixBackend, cairo_xlib_state};
use crate::wayland::{EglSetupStep, WaylandBackend, INITIAL_EGL_SURFACE_SIZE};
use crate::web::{WebBackend, WebCmd};

verus! {

pub use crate::color::Color;
pub use crate::color::Vec4;
pub use crate::geometry::Point2;
pub use crate::geometry::Point3;
pub use crate::geometry::Point4;

/// What one backend operation asks the shell to execute: a batch of native
/// calls of the backend's own API, an empty acceptance, or an explicit
/// marker that the backend does not implement the operation, which the
/// shell turns into a hard stop rather than a silent no-op.
#[derive(Clone, Debug)]
pub enum RenderBatch {
    Cairo(Vec<crate::cairo::CairoCmd>),
    D2d(Vec<crate::dx2d::D2dCmd>),
    Egl(Vec<crate::wayland::EglCmd>),
    Web(Vec<crate::web::WebCmd>),
    /// The operation is accepted without effect on this backend: nothing
    /// for the shell to execute.
    NoOp,
    Unimplemented,
}

/// The answer of a display-size query: the dimensions, or an explicit
/// marker that the backend cannot report them.
#[derive(Clone, Copy, Debug, PartialEq, Eq, Structural)]
pub enum SizeResult {
    Size(u32, u32),
    Unimplemented,
}

/// The mathematical value of a batch: the same variants as `RenderBatch`,
/// with each command vector abstracted to its sequence.
pub enum BatchSpec {
    Cairo(Seq<crate::cairo::CairoCmd>),
    D2d(Seq<crate::dx2d::D2dCmd>),
    Egl(Seq<crate::wayland::EglCmd>),
    Web(Seq<crate::web::WebCmd>),
    NoOp,
    Unimplemented,
}

/// The abstraction of a batch to its mathematical value.
pub open spec fn spec_batch_of(r: RenderBatch) -> BatchSpec {
    match r {
        RenderBatch::Cairo(v) => BatchSpec::Cairo(v@),
        RenderBatch::D2d(v) => BatchSpec::D2d(v@),
        RenderBatch::Egl(v) => BatchSpec::Egl(v@),
        RenderBatch::Web(v) => BatchSpec::Web(v@),
        RenderBatch::NoOp => BatchSpec::NoOp,
        RenderBatch::Unimplemented => BatchSpec::Unimplemented,
    }
}

/// The fresh size reading the shell hands into an operation that may
/// re-check the surface size, in the shape the backend's platform query
/// reports it.
#[derive(Clone, Copy, Debug)]
pub enum SizeProbe {
    /// An X11 window geometry reading: width and height.
    Geometry(u32, u32),
    /// A Win32 client-area reading.
    Client(ClientRect),
    /// A browser window's inner logical size.
    Inner(u32, u32),
    /// The backend needs no size reading.
    NoProbe,
}

/// The active backend: exactly one concrete backend, selected once at
/// initialization, dispatched as a closed union.
#[derive(Clone, Copy, Debug)]
pub enum Backend {
    Unix(UnixBackend),
    D2d(Direct2DBackend),
    Web(WebBackend),
}

impl Backend {
    /// Whether a probe is the kind of reading this backend's platform
    /// query reports, and well formed.
    pub open spec fn spec_probe_ok(self, probe: SizeProbe) -> bool {
        match self {
            Backend::Unix(UnixBackend::Cairo(_)) => probe is Geometry,
            Backend::Unix(UnixBackend::Wayland(_)) => probe is NoProbe,
            Backend::D2d(_) => probe matches SizeProbe::Client(rect) && spec_rect_wf(rect),
            Backend::Web(_) => probe is Inner,
        }
    }

    /// Whether the recreation counters still have headroom.
    pub open spec fn spec_gen_ok(self) -> bool {
        match self {
            Backend::Unix(u) => u.spec_gen_ok(),
            Backend::D2d(d) => d.target_generation < u64::MAX,
            Backend::Web(_) => true,
        }
    }

    /// The state after a frame start on the given probe.
    pub open spec fn spec_begun(self, probe: SizeProbe) -> Backend {
        match self {
            Backend::Unix(u) => match probe {
                SizeProbe::Geometry(w, h) => Backend::Unix(u.spec_begun(w, h)),
                _ => self,
            },
            Backend::D2d(d) => match probe {
                SizeProbe::Client(rect) => Backend::D2d(crate::dx2d::spec_d2d_updated(d, rect)),
                _ => self,
            },
            Backend::Web(b) => match probe {
                SizeProbe::Inner(w, h) => Backend::Web(crate::web::spec_web_scaled(b, w, h)),
                _ => self,
            },
        }
    }

    /// The batch a frame start returns.
    pub open spec fn spec_begin_batch(self, probe: SizeProbe) -> BatchSpec {
        match self {
            Backend::Unix(u) => match probe {
                SizeProbe::Geometry(w, h) => u.spec_begin_batch(w, h),
                _ => u.spec_begin_batch(0, 0),
            },
            Backend::D2d(d) => match probe {
                SizeProbe::Client(rect) => BatchSpec::D2d(
                    crate::dx2d::spec_d2d_update_cmds(d, rect).push(D2dCmd::BeginDraw),
                ),
                _ => BatchSpec::NoOp,
            },
            Backend::Web(b) => match probe {
                SizeProbe::Inner(w, h) => BatchSpec::Web(
                    crate::web::spec_web_scale_cmds(b, w, h).push(WebCmd::BeginPath),
                ),
                _ => BatchSpec::NoOp,
            },
        }
    }

    /// The batch a frame end returns; ending a frame never changes the
    /// backend state.
    pub open spec fn spec_flush_batch(self) -> BatchSpec {
        match self {
            Backend::Unix(u) => u.spec_flush_batch(),
            Backend::D2d(_) => BatchSpec::D2d(seq![D2dCmd::EndDraw]),
            Backend::Web(_) => BatchSpec::Web(seq![WebCmd::FillPath]),
        }
    }

    /// The answer of a size query on the given probe.
    pub open spec fn spec_size_value(self, probe: SizeProbe) -> SizeResult {
        match self {
            Backend::Unix(u) => match probe {
                SizeProbe::Geometry(w, h) => u.spec_size_value(w, h),
                _ => u.spec_size_value(0, 0),
            },
            Backend::D2d(d) => SizeResult::Size(d.width, d.height),
            Backend::Web(_) => match probe {
                SizeProbe::Inner(w, h) => SizeResult::Size(w, h),
                _ => SizeResult::Unimplemented,
            },
        }
    }

    /// The state after a size query: only the canvas backend refreshes its
    /// element on the way.
    pub open spec fn spec_sized(self, probe: SizeProbe) -> Backend {
        match self {
            Backend::Web(b) => match probe {
                SizeProbe::Inner(w, h) => Backend::Web(crate::web::spec_web_scaled(b, w, h)),
                _ => self,
            },
            _ => self,
        }
    }

    /// The batch a size query returns.
    pub open spec fn spec_size_batch(self, probe: SizeProbe) -> BatchSpec {
        match self {
            Backend::Web(b) => match probe {
                SizeProbe::Inner(w, h) => BatchSpec::Web(crate::web::spec_web_scale_cmds(b, w, h)),
                _ => BatchSpec::NoOp,
            },
            _ => BatchSpec::NoOp,
        }
    }

    /// The batch a full-surface clear returns.
    pub open spec fn spec_clear_batch(self, probe: SizeProbe, c: Color) -> BatchSpec {
        match self {
            Backend::Unix(u) => match probe {
                SizeProbe::Geometry(w, h) => u.spec_clear_batch(w, h, spec_vec4_of(c)),
                _ => u.spec_clear_batch(0, 0, spec_vec4_of(c)),
            },
            Backend::D2d(_) => BatchSpec::D2d(seq![D2dCmd::Clear { color: spec_vec4_of(c) }]),
            Backend::Web(b) => BatchSpec::Web(
                seq![
                    WebCmd::SetFillStyle {
                        r: spec_vec4_of(c).0,
                        g: spec_vec4_of(c).1,
                        b: spec_vec4_of(c).2,
                        a: spec_vec4_of(c).3,
                    },
                    WebCmd::FillRect { x: 0, y: 0, w: b.width as i64, h: b.height as i64 },
                ],
            ),
        }
    }

    /// The batch an ellipse fill returns.
    pub open spec fn spec_ellipse_batch(self, point: Point2<i64>, radius: i64, c: Color) -> BatchSpec {
        match self {
            Backend::Unix(u) => u.spec_ellipse_batch(point, radius, spec_vec4_of(c)),
            Backend::D2d(_) => BatchSpec::D2d(
                seq![
                    D2dCmd::FillEllipse {
                        cx: (point.0 + radius) as i64,
                        cy: (point.1 + radius) as i64,
                        radius_x: radius,
                        radius_y: radius,
                        brush: BrushSpec::Solid(spec_vec4_of(c)),
                    },
                ],
            ),
            Backend::Web(_) => BatchSpec::Unimplemented,
        }
    }

    /// The batch a rectangle fill returns. On the native backends the
    /// second point is an extent added to the first; on the canvas backend
    /// the numbers pass straight through to the native call.
    pub open spec fn spec_rectangle_batch(self, point1: Point2<i64>, point2: Point2<i64>, c: Color) -> BatchSpec {
        match self {
            Backend::Unix(u) => u.spec_rectangle_batch(point1, point2, spec_vec4_of(c)),
            Backend::D2d(_) => BatchSpec::D2d(
                seq![
                    D2dCmd::FillRectangle {
                        left: point1.0,
                        top: point1.1,
                        right: (point1.0 + point2.0) as i64,
                        bottom: (point1.1 + point2.1) as i64,
                        brush: BrushSpec::Solid(spec_vec4_of(c)),
                    },
                ],
            ),
            Backend::Web(_) => BatchSpec::Web(
                seq![
                    WebCmd::SetFillStyle {
                        r: spec_vec4_of(c).0,
                        g: spec_vec4_of(c).1,
                        b: spec_vec4_of(c).2,
                        a: spec_vec4_of(c).3,
                    },
                    WebCmd::FillRect { x: point1.0, y: point1.1, w: point2.0, h: point2.1 },
                ],
            ),
        }
    }

    /// The batch a rounded-rectangle fill returns.
    pub open spec fn spec_rounded_rectangle_batch(
        self,
        point1: Point2<i64>,
        point2: Point2<i64>,
        radius: i64,
        c: Color,
    ) -> BatchSpec {
        match self {
            Backend::Unix(u) => u.spec_rounded_rectangle_batch(point1, point2, radius, spec_vec4_of(c)),
            Backend::D2d(_) => BatchSpec::D2d(
                seq![
                    D2dCmd::FillRoundedRectangle {
                        left: point1.0,
                        top: point1.1,
                        right: (point1.0 + point2.0) as i64,
                        bottom: (point1.1 + point2.1) as i64,
                        radius_x: radius,
                        radius_y: radius,
                        brush: BrushSpec::Solid(spec_vec4_of(c)),
                    },
                ],
            ),
            Backend::Web(_) => BatchSpec::Unimplemented,
        }
    }

    /// The batch a line stroke returns.
    pub open spec fn spec_line_batch(
        self,
        point1: Point2<i64>,
        point2: Point2<i64>,
        stroke: i64,
        c: Color,
    ) -> BatchSpec {
        match self {
            Backend::Unix(u) => u.spec_line_batch(point1, point2, stroke, spec_vec4_of(c)),
            Backend::D2d(_) => BatchSpec::D2d(
                seq![
                    D2dCmd::DrawLine {
                        x1: point1.0,
                        y1: point1.1,
                        x2: point2.0,
                        y2: point2.1,
                        stroke,
                        brush: BrushSpec::Solid(spec_vec4_of(c)),
                        style: StrokeStyleSpec {
                            start_cap: CapStyle::Round,
                            end_cap: CapStyle::Triangle,
                        },
                    },
                ],
            ),
            Backend::Web(b) => BatchSpec::Web(
                seq![
                    WebCmd::SetFillStyle {
                        r: spec_vec4_of(c).0,
                        g: spec_vec4_of(c).1,
                        b: spec_vec4_of(c).2,
                        a: spec_vec4_of(c).3,
                    },
                    WebCmd::SetStrokeStyle {
                        r: spec_vec4_of(c).0,
                        g: spec_vec4_of(c).1,
                        b: spec_vec4_of(c).2,
                        a: spec_vec4_of(c).3,
                    },
                    WebCmd::SetLineWidth(stroke),
                    WebCmd::MoveTo { x: point1.0, y: point1.1 },
                    WebCmd::LineTo { x: point2.0, y: point2.1 },
                    WebCmd::StrokePath,
                ],
            ),
        }
    }

    /// Starts a frame on the active backend.
    pub fn begin_draw(&mut self, probe: SizeProbe) -> (r: RenderBatch)
        requires
            old(self).spec_probe_ok(probe),
            old(self).spec_gen_ok(),
        ensures
            *final(self) == old(self).spec_begun(probe),
            spec_batch_of(r) == old(self).spec_begin_batch(probe),
    {
        match &mut *self {
            Backend::Unix(u) => match probe {
                SizeProbe::Geometry(w, h) => u.begin_draw(w, h),
                SizeProbe::NoProbe => u.begin_draw(0, 0),
                _ => {
                    proof {
                        assert(false);
                    }
                    RenderBatch::NoOp
                },
            },
            Backend::D2d(d) => match probe {
                SizeProbe::Client(rect) => RenderBatch::D2d(d.begin_draw(rect)),
                _ => {
                    proof {
                        assert(false);
                    }
                    RenderBatch::NoOp
                },
            },
            Backend::Web(b) => match probe {
                SizeProbe::Inner(w, h) => RenderBatch::Web(b.begin_draw(w, h)),
                _ => {
                    proof {
                        assert(false);
                    }
                    RenderBatch::NoOp
                },
            },
        }
    }

    /// Ends a frame on the active backend.
    pub fn flush(&self) -> (r: RenderBatch)
        ensures
            spec_batch_of(r) == self.spec_flush_batch(),
    {
        match self {
            Backend::Unix(u) => u.flush(),
            Backend::D2d(d) => RenderBatch::D2d(d.flush()),
            Backend::Web(b) => RenderBatch::Web(b.flush()),
        }
    }

    /// Queries the display size on the active backend.
    pub fn get_display_size(&mut self, probe: SizeProbe) -> (r: (SizeResult, RenderBatch))
        requires
            old(self).spec_probe_ok(probe),
        ensures
            *final(self) == old(self).spec_sized(probe),
            r.0 == old(self).spec_size_value(probe),
            spec_batch_of(r.1) == old(self).spec_size_batch(probe),
    {
        match &mut *self {
            Backend::Unix(u) => match probe {
                SizeProbe::Geometry(w, h) => (u.get_display_size(w, h), RenderBatch::NoOp),
                SizeProbe::NoProbe => (u.get_display_size(0, 0), RenderBatch::NoOp),
                _ => {
                    proof {
                        assert(false);
                    }
                    (SizeResult::Unimplemented, RenderBatch::NoOp)
                },
            },
            Backend::D2d(d) => {
                let s = d.get_display_size();
                (SizeResult::Size(s.0, s.1), RenderBatch::NoOp)
            },
            Backend::Web(b) => match probe {
                SizeProbe::Inner(w, h) => {
                    let (s, cmds) = b.get_display_size(w, h);
                    (SizeResult::Size(s.0, s.1), RenderBatch::Web(cmds))
                },
                _ => {
                    proof {
                        assert(false);
                    }
                    (SizeResult::Unimplemented, RenderBatch::NoOp)
                },
            },
        }
    }

    /// Clears the full surface on the active backend.
    pub fn clear(&self, probe: SizeProbe, color: Color) -> (r: RenderBatch)
        requires
            self.spec_probe_ok(probe),
        ensures
            spec_batch_of(r) == self.spec_clear_batch(probe, color),
    {
        match self {
            Backend::Unix(u) => match probe {
                SizeProbe::Geometry(w, h) => u.clear(w, h, Vec4::from(color)),
                SizeProbe::NoProbe => u.clear(0, 0, Vec4::from(color)),
                _ => {
                    proof {
                        assert(false);
                    }
                    RenderBatch::NoOp
                },
            },
            Backend::D2d(d) => {
                let p = Paint::Solid(color);
                let cmds = d.clear(&p);
                proof {
                    assert(cmds@ =~= seq![D2dCmd::Clear { color: spec_vec4_of(color) }]);
                }
                RenderBatch::D2d(cmds)
            },
            Backend::Web(b) => RenderBatch::Web(b.clear(Vec4::from(color))),
        }
    }

    /// Fills an ellipse on the active backend.
    pub fn ellipse(&self, point: Point2<i64>, radius: i64, color: Color) -> (r: RenderBatch)
        requires
            i64::MIN <= point.0 + radius <= i64::MAX,
            i64::MIN <= point.1 + radius <= i64::MAX,
        ensures
            spec_batch_of(r) == self.spec_ellipse_batch(point, radius, color),
    {
        match self {
            Backend::Unix(u) => u.ellipse(point, radius, Vec4::from(color)),
            Backend::D2d(d) => {
                let p = Paint::Solid(color);
                let cmds = d.ellipse(point, radius, &p);
                proof {
                    let target = self.spec_ellipse_batch(point, radius, color);
                    assert(cmds@[0] == target->D2d_0[0]);
                    assert(cmds@ =~= target->D2d_0);
                }
                RenderBatch::D2d(cmds)
            },
            Backend::Web(b) => b.draw_unimplemented(),
        }
    }

    /// Fills a rectangle on the active backend.
    pub fn rectangle(&self, point1: Point2<i64>, point2: Point2<i64>, color: Color) -> (r:
        RenderBatch)
        requires
            i64::MIN <= point1.0 + point2.0 <= i64::MAX,
            i64::MIN <= point1.1 + point2.1 <= i64::MAX,
        ensures
            spec_batch_of(r) == self.spec_rectangle_batch(point1, point2, color),
    {
        match self {
            Backend::Unix(u) => u.rectangle(point1, point2, Vec4::from(color)),
            Backend::D2d(d) => {
                let p = Paint::Solid(color);
                let cmds = d.rectangle(point1, point2, &p);
                proof {
                    let target = self.spec_rectangle_batch(point1, point2, color);
                    assert(cmds@[0] == target->D2d_0[0]);
                    assert(cmds@ =~= target->D2d_0);
                }
                RenderBatch::D2d(cmds)
            },
            Backend::Web(b) => RenderBatch::Web(b.rectangle(point1, point2, Vec4::from(color))),
        }
    }

    /// Fills a rounded rectangle on the active backend.
    pub fn rounded_rectangle(
        &self,
        point1: Point2<i64>,
        point2: Point2<i64>,
        radius: i64,
        color: Color,
    ) -> (r: RenderBatch)
        requires
            i64::MIN <= point1.0 + point2.0 - radius <= i64::MAX,
            i64::MIN <= point1.1 + point2.1 - radius <= i64::MAX,
            i64::MIN <= point1.0 + point2.0 <= i64::MAX,
            i64::MIN <= point1.1 + point2.1 <= i64::MAX,
            i64::MIN <= point1.0 + radius <= i64::MAX,
            i64::MIN <= point1.1 + radius <= i64::MAX,
        ensures
            spec_batch_of(r) == self.spec_rounded_rectangle_batch(point1, point2, radius, color),
    {
        match self {
            Backend::Unix(u) => u.rounded_rectangle(point1, point2, radius, Vec4::from(color)),
            Backend::D2d(d) => {
                let p = Paint::Solid(color);
                let cmds = d.rounded_rectangle(point1, point2, radius, &p);
                proof {
                    let target = self.spec_rounded_rectangle_batch(point1, point2, radius, color);
                    assert(cmds@[0] == target->D2d_0[0]);
                    assert(cmds@ =~= target->D2d_0);
                }
                RenderBatch::D2d(cmds)
            },
            Backend::Web(b) => b.draw_unimplemented(),
        }
    }

    /// Strokes a line on the active backend.
    pub fn line(&self, point1: Point2<i64>, point2: Point2<i64>, stroke: i64, color: Color) -> (r:
        RenderBatch)
        ensures
            spec_batch_of(r) == self.spec_line_batch(point1, point2, stroke, color),
    {
        match self {
            Backend::Unix(u) => u.line(point1, point2, stroke, Vec4::from(color)),
            Backend::D2d(d) => {
                let p = Paint::Solid(color);
                let cmds = d.line(point1, point2, stroke, &p);
                proof {
                    let target = self.spec_line_batch(point1, point2, stroke, color);
                    assert(cmds@[0] == target->D2d_0[0]);
                    assert(cmds@ =~= target->D2d_0);
                }
                RenderBatch::D2d(cmds)
            },
            Backend::Web(b) => RenderBatch::Web(b.line(point1, point2, stroke, Vec4::from(color))),
        }
    }
}

/// The drawing context handed to frame drawing: it wraps the active
/// backend and tracks whether a frame is open, so begin and flush stay
/// paired, exactly once per frame.
#[derive(Clone, Copy, Debug)]
pub struct Painter {
    pub backend: Backend,
    /// Whether a frame is open: set by `begin_draw`, cleared by `flush`.
    pub frame_open: bool,
}

/// One platform-independent drawing call issued inside a frame; nothing is
/// retained, each call is resolved into native calls on the spot.
#[derive(Clone, Copy, Debug)]
pub enum DrawCommand {
    Clear(Color),
    Ellipse(Point2<i64>, i64, Color),
    Rectangle(Point2<i64>, Point2<i64>, Color),
    RoundedRectangle(Point2<i64>, Point2<i64>, i64, Color),
    Line(Point2<i64>, Point2<i64>, i64, Color),
}

/// The coordinate bounds under which a drawing call's extent arithmetic
/// cannot overflow the native coordinate type.
pub open spec fn spec_call_wf(call: DrawCommand) -> bool {
    match call {
        DrawCommand::Clear(_) => true,
        DrawCommand::Ellipse(p, radius, _) => {
            &&& i64::MIN <= p.0 + radius <= i64::MAX
            &&& i64::MIN <= p.1 + radius <= i64::MAX
        },
        DrawCommand::Rectangle(p1, p2, _) => {
            &&& i64::MIN <= p1.0 + p2.0 <= i64::MAX
            &&& i64::MIN <= p1.1 + p2.1 <= i64::MAX
        },
        DrawCommand::RoundedRectangle(p1, p2, radius, _) => {
            &&& i64::MIN <= p1.0 + p2.0 - radius <= i64::MAX
            &&& i64::MIN <= p1.1 + p2.1 - radius <= i64::MAX
            &&& i64::MIN <= p1.0 + p2.0 <= i64::MAX
            &&& i64::MIN <= p1.1 + p2.1 <= i64::MAX
            &&& i64::MIN <= p1.0 + radius <= i64::MAX
            &&& i64::MIN <= p1.1 + radius <= i64::MAX
        },
        DrawCommand::Line(_, _, _, _) => true,
    }
}

/// The batch one drawing call resolves to on a given backend.
pub open spec fn spec_call_batch(b: Backend, probe: SizeProbe, call: DrawCommand) -> BatchSpec {
    match call {
        DrawCommand::Clear(c) => b.spec_clear_batch(probe, c),
        DrawCommand::Ellipse(p, radius, c) => b.spec_ellipse_batch(p, radius, c),
        DrawCommand::Rectangle(p1, p2, c) => b.spec_rectangle_batch(p1, p2, c),
        DrawCommand::RoundedRectangle(p1, p2, radius, c) => b.spec_rounded_rectangle_batch(
            p1,
            p2,
            radius,
            c,
        ),
        DrawCommand::Line(p1, p2, stroke, c) => b.spec_line_batch(p1, p2, stroke, c),
    }
}

impl Painter {
    /// Opens a frame: the backend re-checks the surface size against the
    /// fresh reading and recreates its surface first if it changed.
    pub fn begin_draw(&mut self, probe: SizeProbe) -> (r: RenderBatch)
        requires
            !old(self).frame_open,
            old(self).backend.spec_probe_ok(probe),
            old(self).backend.spec_gen_ok(),
        ensures
            final(self).backend == old(self).backend.spec_begun(probe),
            final(self).frame_open,
            spec_batch_of(r) == old(self).backend.spec_begin_batch(probe),
    {
        let r = self.backend.begin_draw(probe);
        self.frame_open = true;
        r
    }

    /// Closes the frame opened by the matching `begin_draw`.
    pub fn flush(&mut self) -> (r: RenderBatch)
        requires
            old(self).frame_open,
        ensures
            final(self).backend == old(self).backend,
            !final(self).frame_open,
            spec_batch_of(r) == old(self).backend.spec_flush_batch(),
    {
        let r = self.backend.flush();
        self.frame_open = false;
        r
    }

    /// Queries the current surface size; never reports a stale cache, the
    /// fresh reading wins.
    pub fn get_size(&mut self, probe: SizeProbe) -> (r: (SizeResult, RenderBatch))
        requires
            old(self).backend.spec_probe_ok(probe),
        ensures
            final(self).backend == old(self).backend.spec_sized(probe),
            final(self).frame_open == old(self).frame_open,
            r.0 == old(self).backend.spec_size_value(probe),
            spec_batch_of(r.1) == old(self).backend.spec_size_batch(probe),
    {
        self.backend.get_display_size(probe)
    }

    /// Fills the whole surface with a solid color.
    pub fn clear(&self, probe: SizeProbe, color: Color) -> (r: RenderBatch)
        requires
            self.frame_open,
            self.backend.spec_probe_ok(probe),
        ensures
            spec_batch_of(r) == self.backend.spec_clear_batch(probe, color),
    {
        self.backend.clear(probe, color)
    }

    /// Fills an ellipse.
    pub fn ellipse(&self, pos: Point2<i64>, radius: i64, color: Color) -> (r: RenderBatch)
        requires
            self.frame_open,
            i64::MIN <= pos.0 + radius <= i64::MAX,
            i64::MIN <= pos.1 + radius <= i64::MAX,
        ensures
            spec_batch_of(r) == self.backend.spec_ellipse_batch(pos, radius, color),
    {
        self.backend.ellipse(pos, radius, color)
    }

    /// Fills a rectangle at `pos` with extent `size`.
    pub fn rectangle(&self, pos: Point2<i64>, size: Point2<i64>, color: Color) -> (r: RenderBatch)
        requires
            self.frame_open,
            i64::MIN <= pos.0 + size.0 <= i64::MAX,
            i64::MIN <= pos.1 + size.1 <= i64::MAX,
        ensures
            spec_batch_of(r) == self.backend.spec_rectangle_batch(pos, size, color),
    {
        self.backend.rectangle(pos, size, color)
    }

    /// Fills a rounded rectangle at `pos` with extent `size`.
    pub fn rounded_rectangle(
        &self,
        pos: Point2<i64>,
        size: Point2<i64>,
        radius: i64,
        color: Color,
    ) -> (r: RenderBatch)
        requires
            self.frame_open,
            i64::MIN <= pos.0 + size.0 - radius <= i64::MAX,
            i64::MIN <= pos.1 + size.1 - radius <= i64::MAX,
            i64::MIN <= pos.0 + size.0 <= i64::MAX,
            i64::MIN <= pos.1 + size.1 <= i64::MAX,
            i64::MIN <= pos.0 + radius <= i64::MAX,
            i64::MIN <= pos.1 + radius <= i64::MAX,
        ensures
            spec_batch_of(r) == self.backend.spec_rounded_rectangle_batch(pos, size, radius, color),
    {
        self.backend.rounded_rectangle(pos, size, radius, color)
    }

    /// Strokes a line.
    pub fn line(&self, point1: Point2<i64>, point2: Point2<i64>, stroke: i64, color: Color) -> (r:
        RenderBatch)
        requires
            self.frame_open,
        ensures
            spec_batch_of(r) == self.backend.spec_line_batch(point1, point2, stroke, color),
    {
        self.backend.line(point1, point2, stroke, color)
    }
}

/// The single drawing surface of the process: it owns the painter and is
/// the only place frames are opened and closed, so every frame is exactly
/// one begin, the frame's drawing calls, and one flush.
#[derive(Clone, Copy, Debug)]
pub struct Canvas {
    pub painter: Painter,
}

impl Canvas {
    /// Draws one frame: opens it on the fresh size reading, resolves each
    /// drawing call in order, and closes it. The returned batches are the
    /// frame's native calls in issue order: the begin batch, one batch per
    /// call, and the flush batch.
    pub fn draw(&mut self, probe: SizeProbe, calls: &Vec<DrawCommand>) -> (batches: Vec<
        RenderBatch,
    >)
        requires
            !old(self).painter.frame_open,
            old(self).painter.backend.spec_probe_ok(probe),
            old(self).painter.backend.spec_gen_ok(),
            forall|i: int| 0 <= i < calls@.len() ==> #[trigger] spec_call_wf(calls@[i]),
        ensures
            !final(self).painter.frame_open,
            final(self).painter.backend == old(self).painter.backend.spec_begun(probe),
            batches@.len() == calls@.len() + 2,
            spec_batch_of(batches@[0]) == old(self).painter.backend.spec_begin_batch(probe),
            forall|i: int|
                0 <= i < calls@.len() ==> spec_batch_of(#[trigger] batches@[i + 1])
                    == spec_call_batch(
                    old(self).painter.backend.spec_begun(probe),
                    probe,
                    calls@[i],
                ),
            spec_batch_of(batches@[calls@.len() as int + 1]) == old(
                self,
            ).painter.backend.spec_begun(probe).spec_flush_batch(),
    {
        let ghost begun = old(self).painter.backend.spec_begun(probe);
        let mut batches: Vec<RenderBatch> = Vec::new();
        let first = self.painter.begin_draw(probe);
        batches.push(first);
        proof {
            assert(self.painter.backend.spec_probe_ok(probe));
        }
        let mut i: usize = 0;
        while i < calls.len()
            invariant
                0 <= i <= calls@.len(),
                self.painter.backend == begun,
                self.painter.backend.spec_probe_ok(probe),
                self.painter.frame_open,
                batches@.len() == i + 1,
                spec_batch_of(batches@[0]) == old(self).painter.backend.spec_begin_batch(probe),
                forall|j: int|
                    0 <= j < i ==> spec_batch_of(#[trigger] batches@[j + 1]) == spec_call_batch(
                        begun,
                        probe,
                        calls@[j],
                    ),
                forall|j: int| 0 <= j < calls@.len() ==> #[trigger] spec_call_wf(calls@[j]),
            decreases calls@.len() - i,
        {
            proof {
                assert(spec_call_wf(calls@[i as int]));
            }
            let call = calls[i];
            let batch = match call {
                DrawCommand::Clear(c) => self.painter.clear(probe, c),
                DrawCommand::Ellipse(p, radius, c) => self.painter.ellipse(p, radius, c),
                DrawCommand::Rectangle(p1, p2, c) => self.painter.rectangle(p1, p2, c),
                DrawCommand::RoundedRectangle(p1, p2, radius, c) => self.painter.rounded_rectangle(
                    p1,
                    p2,
                    radius,
                    c,
                ),
                DrawCommand::Line(p1, p2, stroke, c) => self.painter.line(p1, p2, stroke, c),
            };
            batches.push(batch);
            i = i + 1;
        }
        let last = self.painter.flush();
        batches.push(last);
        batches
    }
}

/// The process-wide single-canvas guard: initialization spends it, and a
/// spent guard admits no second initialization. The application owns one
/// guard for its lifetime and checks it before initializing.
#[derive(Clone, Copy, Debug, PartialEq, Eq, Structural)]
pub struct CanvasGuard {
    /// Whether an initialization attempt has already spent this guard.
    pub created: bool,
}

impl Default for CanvasGuard {
    /// A fresh guard that still admits one initialization.
    fn default() -> (g: Self)
        ensures
            !g.created,
    {
        CanvasGuard { created: false }
    }
}

/// Whether a guard still admits an initialization attempt.
pub open spec fn spec_creation_allowed(g: CanvasGuard) -> bool {
    !g.created
}

/// Whether a probe carries the initial size reading the platform of this
/// handle needs.
pub open spec fn spec_init_probe_ok(h: WindowHandle, probe: SizeProbe) -> bool {
    &&& h is Xlib ==> probe is Geometry
    &&& h is Wayland ==> probe is NoProbe
    &&& h is Win32 ==> (probe matches SizeProbe::Client(rect) && spec_rect_wf(rect))
    &&& h is Web ==> probe is Inner
}

/// The native setup calls initialization asks the shell to perform for the
/// constructed backend.
#[derive(Clone, Debug)]
pub enum SetupBatch {
    Cairo(Vec<CairoCmd>),
    Egl(Vec<EglSetupStep>),
    D2d(Vec<D2dCmd>),
    Web(Vec<WebCmd>),
}

/// Initializes the library on a window handle. The dispatcher matches the
/// handle variant totally: each of the four supported variants constructs
/// exactly one backend, every other variant is a typed failure, and either
/// way the one-shot guard is spent.
pub fn create_canvas(guard: &mut CanvasGuard, handle: &WindowHandle, probe: SizeProbe) -> (r:
    Result<(Canvas, SetupBatch), BlyError>)
    requires
        spec_creation_allowed(*old(guard)),
        spec_init_probe_ok(*handle, probe),
    ensures
        *final(guard) == (CanvasGuard { created: true }),
        r is Ok <==> spec_supported(*handle),
        !spec_supported(*handle) ==> r == Err::<(Canvas, SetupBatch), BlyError>(
            BlyError::UnsupportedPlatform,
        ),
        r matches Ok((canvas, setup)) ==> !canvas.painter.frame_open
            && canvas.painter.backend.spec_probe_ok(probe),
        *handle matches WindowHandle::Xlib { window } ==> (probe matches SizeProbe::Geometry(
            w,
            h,
        ) ==> ({
            &&& r matches Ok((canvas, setup))
            &&& canvas.painter.backend == Backend::Unix(
                UnixBackend::Cairo(cairo_xlib_state(window, w, h)),
            )
            &&& setup matches SetupBatch::Cairo(cmds)
            &&& cmds@ == seq![
                CairoCmd::OpenDisplay,
                CairoCmd::CreateSurface { window, width: w, height: h },
                CairoCmd::CreateContext,
            ]
        })),
        *handle matches WindowHandle::Wayland { surface } ==> ({
            &&& r matches Ok((canvas, setup))
            &&& canvas.painter.backend == Backend::Unix(
                UnixBackend::Wayland(
                    WaylandBackend {
                        surface,
                        width: INITIAL_EGL_SURFACE_SIZE,
                        height: INITIAL_EGL_SURFACE_SIZE,
                    },
                ),
            )
            &&& setup matches SetupBatch::Egl(steps)
            &&& steps@ == crate::wayland::spec_egl_setup_steps()
        }),
        *handle matches WindowHandle::Win32 { hwnd } ==> (probe matches SizeProbe::Client(
            rect,
        ) ==> ({
            &&& r matches Ok((canvas, setup))
            &&& canvas.painter.backend == Backend::D2d(
                Direct2DBackend {
                    handle: hwnd,
                    width: crate::dx2d::spec_client_width(rect) as u32,
                    height: crate::dx2d::spec_client_height(rect) as u32,
                    target_generation: 0,
                },
            )
            &&& setup matches SetupBatch::D2d(cmds)
            &&& cmds@.len() == 2
        })),
        *handle matches WindowHandle::Web { id } ==> (probe matches SizeProbe::Inner(w, h) ==> ({
            &&& r matches Ok((canvas, setup))
            &&& canvas.painter.backend == Backend::Web(
                WebBackend { width: w, height: h, r: 255, g: 255, b: 255, a: 255 },
            )
            &&& setup matches SetupBatch::Web(cmds)
            &&& cmds@ == seq![
                WebCmd::GetDefaultCanvas,
                WebCmd::SetCssSize { width: w, height: h },
                WebCmd::AppendCanvasToBody,
            ]
        })),
{
    guard.created = true;
    match *handle {
        WindowHandle::Xlib { window } => match probe {
            SizeProbe::Geometry(w, h) => {
                let (u, cmds) = crate::unix::create_xlib_backend(window, w, h);
                Ok(
                    (
                        Canvas { painter: Painter { backend: Backend::Unix(u), frame_open: false } },
                        SetupBatch::Cairo(cmds),
                    ),
                )
            },
            _ => {
                proof {
                    assert(false);
                }
                Err(BlyError::UnsupportedPlatform)
            },
        },
        WindowHandle::Wayland { surface } => {
            let (u, steps) = crate::unix::create_wayland_backend(surface);
            Ok(
                (
                    Canvas { painter: Painter { backend: Backend::Unix(u), frame_open: false } },
                    SetupBatch::Egl(steps),
                ),
            )
        },
        WindowHandle::Win32 { hwnd } => match probe {
            SizeProbe::Client(rect) => match crate::dx2d::create_backend(hwnd, rect) {
                Ok((d, cmds)) => Ok(
                    (
                        Canvas { painter: Painter { backend: Backend::D2d(d), frame_open: false } },
                        SetupBatch::D2d(cmds),
                    ),
                ),
                Err(()) => {
                    proof {
                        assert(false);
                    }
                    Err(BlyError::UnsupportedPlatform)
                },
            },
            _ => {
                proof {
                    assert(false);
                }
                Err(BlyError::UnsupportedPlatform)
            },
        },
        WindowHandle::Web { id } => match probe {
            SizeProbe::Inner(w, h) => {
                let (b, cmds) = crate::web::create_backend(id, w, h);
                Ok(
                    (
                        Canvas { painter: Painter { backend: Backend::Web(b), frame_open: false } },
                        SetupBatch::Web(cmds),
                    ),
                )
            },
            _ => {
                proof {
                    assert(false);
                }
                Err(BlyError::UnsupportedPlatform)
            },
        },
        _ => Err(BlyError::UnsupportedPlatform),
    }
}

/// At most one facade per guard, whatever the handle variant and whatever
/// the outcome: `create_canvas` spends the guard on every attempt, and a
/// spent guard satisfies no attempt's precondition, so a second attempt is
/// stopped before the dispatcher runs and no second facade is ever
/// produced. The fatal stop itself is the owning application's move, since
/// verified code does not panic.
pub proof fn lemma_initialization_is_one_shot(g: CanvasGuard)
    requires
        g.created,
    ensures
        !spec_creation_allowed(g),
{
}

/// Whether the backend implements the frame protocol at all; only the
/// compositor stub of the rasterizer family does not.
pub open spec fn spec_implements_frames(b: Backend) -> bool {
    match b {
        Backend::Unix(UnixBackend::Cairo(cb)) => cb.backend is Xlib,
        _ => true,
    }
}

/// An empty frame is harmless: beginning a frame and flushing it with no
/// drawing calls in between errors on neither side, changes the backend
/// only by the resize gate, and leaves it ready for the next frame with
/// the same kind of size reading. The resize gate is idempotent: opening
/// one more frame on an unchanged reading leaves the state as it is.
pub proof fn lemma_empty_frame(b: Backend, probe: SizeProbe)
    requires
        b.spec_probe_ok(probe),
        spec_implements_frames(b),
    ensures
        !(b.spec_begin_batch(probe) is Unimplemented),
        !(b.spec_begun(probe).spec_flush_batch() is Unimplemented),
        b.spec_begun(probe).spec_probe_ok(probe),
        spec_implements_frames(b.spec_begun(probe)),
        b.spec_begun(probe).spec_begun(probe) == b.spec_begun(probe),
{
}

/// The surface size a backend currently draws into.
pub open spec fn spec_surface_size(b: Backend) -> (u32, u32) {
    match b {
        Backend::Unix(UnixBackend::Cairo(cb)) => match cb.backend {
            CairoTarget::Xlib(x) => (x.width, x.height),
            CairoTarget::WayLand(_) => (0, 0),
        },
        Backend::Unix(UnixBackend::Wayland(wb)) => (wb.width, wb.height),
        Backend::D2d(d) => (d.width, d.height),
        Backend::Web(w) => (w.width, w.height),
    }
}

/// Whether the backend tracks the window size frame by frame; the GL/EGL
/// backend's surface is fixed at construction, and the stub tracks
/// nothing.
pub open spec fn spec_tracks_size(b: Backend) -> bool {
    match b {
        Backend::Unix(UnixBackend::Cairo(cb)) => cb.backend is Xlib,
        Backend::Unix(UnixBackend::Wayland(_)) => false,
        Backend::D2d(_) => true,
        Backend::Web(_) => true,
    }
}

/// The size a probe reports.
pub open spec fn spec_probe_size(probe: SizeProbe) -> (u32, u32) {
    match probe {
        SizeProbe::Geometry(w, h) => (w, h),
        SizeProbe::Client(rect) => (
            crate::dx2d::spec_client_width(rect) as u32,
            crate::dx2d::spec_client_height(rect) as u32,
        ),
        SizeProbe::Inner(w, h) => (w, h),
        SizeProbe::NoProbe => (0, 0),
    }
}

/// Resizing between two frames is fully absorbed by the second frame's
/// start: whatever size the first frame ran at, after the second frame
/// begins on the new reading the surface in use has exactly the new
/// dimensions, and a size query inside that frame reports them — no
/// drawing call of the second frame targets a stale surface and no stale
/// cache is ever observed. The comparison gate is also exact the other
/// way: the second frame's start leaves the backend untouched precisely
/// when the new reading matches the surface already in use, so nothing is
/// recreated without need.
pub proof fn lemma_resize_refreshes_surface(b: Backend, probe1: SizeProbe, probe2: SizeProbe)
    requires
        spec_tracks_size(b),
        b.spec_probe_ok(probe1),
        b.spec_probe_ok(probe2),
    ensures
        spec_surface_size(b.spec_begun(probe1).spec_begun(probe2)) == spec_probe_size(probe2),
        b.spec_begun(probe1).spec_begun(probe2).spec_size_value(probe2) == SizeResult::Size(
            spec_probe_size(probe2).0,
            spec_probe_size(probe2).1,
        ),
        (b.spec_begun(probe1).spec_begun(probe2) == b.spec_begun(probe1)) <==> (spec_probe_size(
            probe2,
        ) == spec_surface_size(b.spec_begun(probe1))),
{
}

} // verus!
