//! The rasterizer backend family: an immediate-mode path-filling surface
//! bound to an X11 window, plus the compositor member of the family that has
//! no drawing paths yet.
//!
//! The backend state tracks the native window id, the dimensions of the
//! surface in use, and a generation counter that advances every time the
//! surface and its drawing context are recreated. Every operation returns
//! the exact sequence of native calls the shell must issue; the shell feeds
//! back the window geometry it read from the windowing system.

use vstd::prelude::*;
use crate::color::Vec4;
use crate::geometry::Point2;
use crate::BatchSpec;
use crate::RenderBatch;
use crate::SizeResult;
use crate::spec_batch_of;

verus! {

/// One native call of the rasterizer API. Color channels are on the
/// 0..=255 scale; angles are whole degrees; coordinates are whole pixels.
#[derive(Clone, Copy, Debug, PartialEq, Eq, Structural)]
pub enum CairoCmd {
    /// Open the display connection.
    OpenDisplay,
    /// Create a window-backed surface of the given size.
    CreateSurface { window: u64, width: u32, height: u32 },
    /// Create a drawing context on the most recently created surface.
    CreateContext,
    /// Set an opaque solid source.
    SetSourceRgb { r: u32, g: u32, b: u32 },
    /// Set a solid source with alpha.
    SetSourceRgba { r: u32, g: u32, b: u32, a: u32 },
    /// Add a rectangle of the given extent to the current path.
    Rectangle { x: i64, y: i64, w: i64, h: i64 },
    /// Add a circular arc, angles in degrees, sweeping clockwise.
    Arc { cx: i64, cy: i64, radius: i64, start_deg: i64, end_deg: i64 },
    NewSubPath,
    ClosePath,
    Fill,
    FillPreserve,
    MoveTo { x: i64, y: i64 },
    LineTo { x: i64, y: i64 },
    SetLineWidth(i64),
    Stroke,
    /// Flush the display connection at the end of a frame.
    FlushDisplay,
    /// Release the drawing context on teardown.
    DestroyContext,
}

/// The rasterizer backend bound to one X11 window.
#[derive(Clone, Copy, Debug, PartialEq, Eq, Structural)]
pub struct XLibBackend {
    /// The native window id.
    pub handle: u64,
    /// Width of the surface currently in use.
    pub width: u32,
    /// Height of the surface currently in use.
    pub height: u32,
    /// How many times the surface and context have been recreated.
    pub surface_generation: u64,
}

/// The state after the resize gate has seen the freshly queried geometry:
/// if it differs from the surface in use, the surface and context are
/// recreated at the new size and the cached size is updated; otherwise
/// nothing changes.
pub open spec fn spec_xlib_scaled(b: XLibBackend, width: u32, height: u32) -> XLibBackend {
    if width != b.width || height != b.height {
        XLibBackend {
            handle: b.handle,
            width,
            height,
            surface_generation: (b.surface_generation + 1) as u64,
        }
    } else {
        b
    }
}

/// The native calls the resize gate issues: surface plus context recreation
/// when the geometry changed, nothing otherwise.
pub open spec fn spec_xlib_scale_cmds(b: XLibBackend, width: u32, height: u32) -> Seq<CairoCmd> {
    if width != b.width || height != b.height {
        seq![
            CairoCmd::CreateSurface { window: b.handle, width, height },
            CairoCmd::CreateContext,
        ]
    } else {
        Seq::empty()
    }
}

/// The full-surface fill a clear issues: an opaque solid source and one
/// rectangle covering 0,0 to width,height.
pub open spec fn spec_xlib_clear_cmds(width: u32, height: u32, v: Vec4) -> Seq<CairoCmd> {
    seq![
        CairoCmd::SetSourceRgb { r: v.0, g: v.1, b: v.2 },
        CairoCmd::Rectangle { x: 0, y: 0, w: width as i64, h: height as i64 },
        CairoCmd::Fill,
    ]
}

/// The calls of an ellipse fill: a full circle whose center sits one radius
/// right and down of the given top-left point.
pub open spec fn spec_xlib_ellipse_cmds(point: Point2<i64>, radius: i64, v: Vec4) -> Seq<
    CairoCmd,
> {
    seq![
        CairoCmd::SetSourceRgba { r: v.0, g: v.1, b: v.2, a: v.3 },
        CairoCmd::Arc {
            cx: (point.0 + radius) as i64,
            cy: (point.1 + radius) as i64,
            radius,
            start_deg: 0,
            end_deg: 360,
        },
        CairoCmd::Fill,
    ]
}

/// The calls of a rectangle fill: origin and extent go straight to the
/// native rectangle call, which takes a width and height.
pub open spec fn spec_xlib_rectangle_cmds(point1: Point2<i64>, point2: Point2<i64>, v: Vec4) -> Seq<
    CairoCmd,
> {
    seq![
        CairoCmd::SetSourceRgba { r: v.0, g: v.1, b: v.2, a: v.3 },
        CairoCmd::Rectangle { x: point1.0, y: point1.1, w: point2.0, h: point2.1 },
        CairoCmd::Fill,
    ]
}

/// The calls of a line stroke between two absolute points.
pub open spec fn spec_xlib_line_cmds(point1: Point2<i64>, point2: Point2<i64>, stroke: i64, v: Vec4) -> Seq<
    CairoCmd,
> {
    seq![
        CairoCmd::SetLineWidth(stroke),
        CairoCmd::SetSourceRgba { r: v.0, g: v.1, b: v.2, a: v.3 },
        CairoCmd::MoveTo { x: point1.0, y: point1.1 },
        CairoCmd::LineTo { x: point2.0, y: point2.1 },
        CairoCmd::Stroke,
    ]
}

impl XLibBackend {
    /// Starts a frame: re-queries the window geometry (handed in by the
    /// shell) and recreates the surface at the new size exactly when it
    /// changed since the previous frame.
    pub fn begin_draw(&mut self, width: u32, height: u32) -> (cmds: Vec<CairoCmd>)
        requires
            old(self).surface_generation < u64::MAX,
        ensures
            *final(self) == spec_xlib_scaled(*old(self), width, height),
            cmds@ == spec_xlib_scale_cmds(*old(self), width, height),
    {
        self.scale(width, height)
    }

    /// Ends a frame by flushing the display connection.
    pub fn flush(&self) -> (cmds: Vec<CairoCmd>)
        ensures
            cmds@ == seq![CairoCmd::FlushDisplay],
    {
        let cmds = vec![CairoCmd::FlushDisplay];
        cmds
    }

    /// Reports the freshly queried window geometry; a pure query that does
    /// not touch the drawing state.
    pub fn get_display_size(&self, width: u32, height: u32) -> (r: (u32, u32))
        ensures
            r == (width, height),
    {
        (width, height)
    }

    /// Fills the entire visible surface with an opaque solid color.
    pub fn clear(&self, width: u32, height: u32, v: Vec4) -> (cmds: Vec<CairoCmd>)
        ensures
            cmds@ == spec_xlib_clear_cmds(width, height, v),
    {
        let cmds = vec![
            CairoCmd::SetSourceRgb { r: v.0, g: v.1, b: v.2 },
            CairoCmd::Rectangle { x: 0, y: 0, w: width as i64, h: height as i64 },
            CairoCmd::Fill,
        ];
        cmds
    }

    /// Fills a circle whose bounding box has its top-left corner at `point`:
    /// the arc center sits one radius right and down of it.
    pub fn ellipse(&self, point: Point2<i64>, radius: i64, v: Vec4) -> (cmds: Vec<CairoCmd>)
        requires
            i64::MIN <= point.0 + radius <= i64::MAX,
            i64::MIN <= point.1 + radius <= i64::MAX,
        ensures
            cmds@ == spec_xlib_ellipse_cmds(point, radius, v),
    {
        let cmds = vec![
            CairoCmd::SetSourceRgba { r: v.0, g: v.1, b: v.2, a: v.3 },
            CairoCmd::Arc {
                cx: point.0 + radius,
                cy: point.1 + radius,
                radius,
                start_deg: 0,
                end_deg: 360,
            },
            CairoCmd::Fill,
        ];
        cmds
    }

    /// Fills a rectangle with its top-left corner at `point1` and the extent
    /// given by `point2` (width and height, not a second corner).
    pub fn rectangle(&self, point1: Point2<i64>, point2: Point2<i64>, v: Vec4) -> (cmds: Vec<
        CairoCmd,
    >)
        ensures
            cmds@ == spec_xlib_rectangle_cmds(point1, point2, v),
    {
        let cmds = vec![
            CairoCmd::SetSourceRgba { r: v.0, g: v.1, b: v.2, a: v.3 },
            CairoCmd::Rectangle { x: point1.0, y: point1.1, w: point2.0, h: point2.1 },
            CairoCmd::Fill,
        ];
        cmds
    }

    /// Fills a rectangle of extent `point2` at `point1` with quarter-circle
    /// corners, built clockwise from the top-right corner through
    /// bottom-right, bottom-left and top-left.
    pub fn rounded_rectangle(
        &self,
        point1: Point2<i64>,
        point2: Point2<i64>,
        radius: i64,
        v: Vec4,
    ) -> (cmds: Vec<CairoCmd>)
        requires
            i64::MIN <= point1.0 + point2.0 - radius <= i64::MAX,
            i64::MIN <= point1.1 + point2.1 - radius <= i64::MAX,
            i64::MIN <= point1.0 + point2.0 <= i64::MAX,
            i64::MIN <= point1.1 + point2.1 <= i64::MAX,
            i64::MIN <= point1.0 + radius <= i64::MAX,
            i64::MIN <= point1.1 + radius <= i64::MAX,
        ensures
            cmds@ == spec_xlib_rounded_rectangle_cmds(point1, point2, radius, v),
    {
        let right_cx = point1.0 + point2.0 - radius;
        let left_cx = point1.0 + radius;
        let top_cy = point1.1 + radius;
        let bottom_cy = point1.1 + point2.1 - radius;
        let cmds = vec![
            CairoCmd::SetSourceRgba { r: v.0, g: v.1, b: v.2, a: v.3 },
            CairoCmd::NewSubPath,
            CairoCmd::Arc { cx: right_cx, cy: top_cy, radius, start_deg: -90, end_deg: 0 },
            CairoCmd::Arc { cx: right_cx, cy: bottom_cy, radius, start_deg: 0, end_deg: 90 },
            CairoCmd::Arc { cx: left_cx, cy: bottom_cy, radius, start_deg: 90, end_deg: 180 },
            CairoCmd::Arc { cx: left_cx, cy: top_cy, radius, start_deg: 180, end_deg: 270 },
            CairoCmd::ClosePath,
            CairoCmd::FillPreserve,
        ];
        cmds
    }

    /// Strokes a straight line between two absolute points with the given
    /// stroke width.
    pub fn line(&self, point1: Point2<i64>, point2: Point2<i64>, stroke: i64, v: Vec4) -> (cmds:
        Vec<CairoCmd>)
        ensures
            cmds@ == spec_xlib_line_cmds(point1, point2, stroke, v),
    {
        let cmds = vec![
            CairoCmd::SetLineWidth(stroke),
            CairoCmd::SetSourceRgba { r: v.0, g: v.1, b: v.2, a: v.3 },
            CairoCmd::MoveTo { x: point1.0, y: point1.1 },
            CairoCmd::LineTo { x: point2.0, y: point2.1 },
            CairoCmd::Stroke,
        ];
        cmds
    }

    /// Releases the drawing context; issued exactly once on teardown so the
    /// context does not leak.
    pub fn release(&self) -> (cmds: Vec<CairoCmd>)
        ensures
            cmds@ == seq![CairoCmd::DestroyContext],
    {
        let cmds = vec![CairoCmd::DestroyContext];
        cmds
    }

    /// The resize gate: recreates the surface and context at the queried
    /// geometry exactly when it differs from the surface in use.
    fn scale(&mut self, width: u32, height: u32) -> (cmds: Vec<CairoCmd>)
        requires
            old(self).surface_generation < u64::MAX,
        ensures
            *final(self) == spec_xlib_scaled(*old(self), width, height),
            cmds@ == spec_xlib_scale_cmds(*old(self), width, height),
    {
        if width != self.width || height != self.height {
            self.width = width;
            self.height = height;
            self.surface_generation = self.surface_generation + 1;
            let cmds = vec![
                CairoCmd::CreateSurface { window: self.handle, width, height },
                CairoCmd::CreateContext,
            ];
            cmds
        } else {
            let cmds: Vec<CairoCmd> = Vec::new();
            cmds
        }
    }
}

/// The arc sequence of a rounded rectangle: clockwise from the top-right
/// corner, each corner a quarter circle of the given radius.
pub open spec fn spec_xlib_rounded_rectangle_cmds(
    point1: Point2<i64>,
    point2: Point2<i64>,
    radius: i64,
    v: Vec4,
) -> Seq<CairoCmd> {
    seq![
        CairoCmd::SetSourceRgba { r: v.0, g: v.1, b: v.2, a: v.3 },
        CairoCmd::NewSubPath,
        CairoCmd::Arc {
            cx: (point1.0 + point2.0 - radius) as i64,
            cy: (point1.1 + radius) as i64,
            radius,
            start_deg: -90i64,
            end_deg: 0,
        },
        CairoCmd::Arc {
            cx: (point1.0 + point2.0 - radius) as i64,
            cy: (point1.1 + point2.1 - radius) as i64,
            radius,
            start_deg: 0,
            end_deg: 90,
        },
        CairoCmd::Arc {
            cx: (point1.0 + radius) as i64,
            cy: (point1.1 + point2.1 - radius) as i64,
            radius,
            start_deg: 90,
            end_deg: 180,
        },
        CairoCmd::Arc {
            cx: (point1.0 + radius) as i64,
            cy: (point1.1 + radius) as i64,
            radius,
            start_deg: 180,
            end_deg: 270,
        },
        CairoCmd::ClosePath,
        CairoCmd::FillPreserve,
    ]
}

/// Two consecutive full-surface clears paint the identical full region, and
/// the later one's solid source is exactly the later color: nothing of the
/// earlier content survives and no blending carries over.
pub proof fn lemma_clear_overwrites(width: u32, height: u32, v1: Vec4, v2: Vec4)
    ensures
        spec_xlib_clear_cmds(width, height, v1)[1] == spec_xlib_clear_cmds(width, height, v2)[1],
        spec_xlib_clear_cmds(width, height, v2)[0] == (CairoCmd::SetSourceRgb {
            r: v2.0,
            g: v2.1,
            b: v2.2,
        }),
        spec_xlib_clear_cmds(width, height, v2)[1] == (CairoCmd::Rectangle {
            x: 0,
            y: 0,
            w: width as i64,
            h: height as i64,
        }),
{
}

/// The compositor member of the rasterizer family. It owns no drawing paths
/// yet: every operation is an explicit not-yet-implemented stop.
#[derive(Clone, Copy, Debug, PartialEq, Eq, Structural)]
pub struct WayLandBackend {}

impl WayLandBackend {
    pub fn begin_draw(&mut self) -> (r: RenderBatch)
        ensures
            r is Unimplemented,
    {
        RenderBatch::Unimplemented
    }

    pub fn flush(&self) -> (r: RenderBatch)
        ensures
            r is Unimplemented,
    {
        RenderBatch::Unimplemented
    }

    pub fn get_display_size(&self) -> (r: SizeResult)
        ensures
            r is Unimplemented,
    {
        SizeResult::Unimplemented
    }

    pub fn clear(&self) -> (r: RenderBatch)
        ensures
            r is Unimplemented,
    {
        RenderBatch::Unimplemented
    }

    pub fn draw_primitive(&self) -> (r: RenderBatch)
        ensures
            r is Unimplemented,
    {
        RenderBatch::Unimplemented
    }
}

/// The target a rasterizer-family backend draws through: the windowing
/// protocol surface, or the compositor stub.
#[derive(Clone, Copy, Debug, PartialEq, Eq, Structural)]
pub enum CairoTarget {
    Xlib(XLibBackend),
    WayLand(WayLandBackend),
}

/// The rasterizer backend family, dispatching to its concrete target.
#[derive(Clone, Copy, Debug, PartialEq, Eq, Structural)]
pub struct CairoBackend {
    pub backend: CairoTarget,
}

impl CairoBackend {
    /// Whether the generation counter still has headroom for another
    /// surface recreation.
    pub open spec fn spec_gen_ok(self) -> bool {
        self.backend matches CairoTarget::Xlib(x) ==> x.surface_generation < u64::MAX
    }

    /// The family state after a frame start at the given queried geometry.
    pub open spec fn spec_begun(self, width: u32, height: u32) -> CairoBackend {
        match self.backend {
            CairoTarget::Xlib(x) => CairoBackend {
                backend: CairoTarget::Xlib(spec_xlib_scaled(x, width, height)),
            },
            CairoTarget::WayLand(_) => self,
        }
    }

    /// The batch a frame start returns.
    pub open spec fn spec_begin_batch(self, width: u32, height: u32) -> BatchSpec {
        match self.backend {
            CairoTarget::Xlib(x) => BatchSpec::Cairo(spec_xlib_scale_cmds(x, width, height)),
            CairoTarget::WayLand(_) => BatchSpec::Unimplemented,
        }
    }

    /// The batch a frame end returns.
    pub open spec fn spec_flush_batch(self) -> BatchSpec {
        match self.backend {
            CairoTarget::Xlib(_) => BatchSpec::Cairo(seq![CairoCmd::FlushDisplay]),
            CairoTarget::WayLand(_) => BatchSpec::Unimplemented,
        }
    }

    /// The answer of a size query at the given queried geometry.
    pub open spec fn spec_size_value(self, width: u32, height: u32) -> SizeResult {
        match self.backend {
            CairoTarget::Xlib(_) => SizeResult::Size(width, height),
            CairoTarget::WayLand(_) => SizeResult::Unimplemented,
        }
    }

    /// The batch a full-surface clear returns.
    pub open spec fn spec_clear_batch(self, width: u32, height: u32, v: Vec4) -> BatchSpec {
        match self.backend {
            CairoTarget::Xlib(_) => BatchSpec::Cairo(spec_xlib_clear_cmds(width, height, v)),
            CairoTarget::WayLand(_) => BatchSpec::Unimplemented,
        }
    }

    /// The batch an ellipse fill returns.
    pub open spec fn spec_ellipse_batch(self, point: Point2<i64>, radius: i64, v: Vec4) -> BatchSpec {
        match self.backend {
            CairoTarget::Xlib(_) => BatchSpec::Cairo(spec_xlib_ellipse_cmds(point, radius, v)),
            CairoTarget::WayLand(_) => BatchSpec::Unimplemented,
        }
    }

    /// The batch a rectangle fill returns.
    pub open spec fn spec_rectangle_batch(self, point1: Point2<i64>, point2: Point2<i64>, v: Vec4) -> BatchSpec {
        match self.backend {
            CairoTarget::Xlib(_) => BatchSpec::Cairo(spec_xlib_rectangle_cmds(point1, point2, v)),
            CairoTarget::WayLand(_) => BatchSpec::Unimplemented,
        }
    }

    /// The batch a rounded-rectangle fill returns.
    pub open spec fn spec_rounded_rectangle_batch(
        self,
        point1: Point2<i64>,
        point2: Point2<i64>,
        radius: i64,
        v: Vec4,
    ) -> BatchSpec {
        match self.backend {
            CairoTarget::Xlib(_) => BatchSpec::Cairo(
                spec_xlib_rounded_rectangle_cmds(point1, point2, radius, v),
            ),
            CairoTarget::WayLand(_) => BatchSpec::Unimplemented,
        }
    }

    /// The batch a line stroke returns.
    pub open spec fn spec_line_batch(
        self,
        point1: Point2<i64>,
        point2: Point2<i64>,
        stroke: i64,
        v: Vec4,
    ) -> BatchSpec {
        match self.backend {
            CairoTarget::Xlib(_) => BatchSpec::Cairo(spec_xlib_line_cmds(point1, point2, stroke, v)),
            CairoTarget::WayLand(_) => BatchSpec::Unimplemented,
        }
    }

    /// Starts a frame on the concrete target.
    pub fn begin_draw(&mut self, width: u32, height: u32) -> (r: RenderBatch)
        requires
            old(self).spec_gen_ok(),
        ensures
            *final(self) == old(self).spec_begun(width, height),
            spec_batch_of(r) == old(self).spec_begin_batch(width, height),
    {
        match &mut self.backend {
            CairoTarget::Xlib(x) => RenderBatch::Cairo(x.begin_draw(width, height)),
            CairoTarget::WayLand(w) => w.begin_draw(),
        }
    }

    /// Ends a frame on the concrete target.
    pub fn flush(&self) -> (r: RenderBatch)
        ensures
            spec_batch_of(r) == self.spec_flush_batch(),
    {
        match &self.backend {
            CairoTarget::Xlib(x) => RenderBatch::Cairo(x.flush()),
            CairoTarget::WayLand(w) => w.flush(),
        }
    }

    /// Answers a size query from the freshly queried geometry.
    pub fn get_display_size(&self, width: u32, height: u32) -> (r: SizeResult)
        ensures
            r == self.spec_size_value(width, height),
    {
        match &self.backend {
            CairoTarget::Xlib(x) => {
                let (w, h) = x.get_display_size(width, height);
                SizeResult::Size(w, h)
            },
            CairoTarget::WayLand(w) => w.get_display_size(),
        }
    }

    /// Clears the full surface on the concrete target.
    pub fn clear(&self, width: u32, height: u32, v: Vec4) -> (r: RenderBatch)
        ensures
            spec_batch_of(r) == self.spec_clear_batch(width, height, v),
    {
        match &self.backend {
            CairoTarget::Xlib(x) => RenderBatch::Cairo(x.clear(width, height, v)),
            CairoTarget::WayLand(w) => w.clear(),
        }
    }

    /// Fills an ellipse on the concrete target.
    pub fn ellipse(&self, point: Point2<i64>, radius: i64, v: Vec4) -> (r: RenderBatch)
        requires
            i64::MIN <= point.0 + radius <= i64::MAX,
            i64::MIN <= point.1 + radius <= i64::MAX,
        ensures
            spec_batch_of(r) == self.spec_ellipse_batch(point, radius, v),
    {
        match &self.backend {
            CairoTarget::Xlib(x) => RenderBatch::Cairo(x.ellipse(point, radius, v)),
            CairoTarget::WayLand(w) => w.draw_primitive(),
        }
    }

    /// Fills a rectangle on the concrete target.
    pub fn rectangle(&self, point1: Point2<i64>, point2: Point2<i64>, v: Vec4) -> (r: RenderBatch)
        ensures
            spec_batch_of(r) == self.spec_rectangle_batch(point1, point2, v),
    {
        match &self.backend {
            CairoTarget::Xlib(x) => RenderBatch::Cairo(x.rectangle(point1, point2, v)),
            CairoTarget::WayLand(w) => w.draw_primitive(),
        }
    }

    /// Fills a rounded rectangle on the concrete target.
    pub fn rounded_rectangle(
        &self,
        point1: Point2<i64>,
        point2: Point2<i64>,
        radius: i64,
        v: Vec4,
    ) -> (r: RenderBatch)
        requires
            i64::MIN <= point1.0 + point2.0 - radius <= i64::MAX,
            i64::MIN <= point1.1 + point2.1 - radius <= i64::MAX,
            i64::MIN <= point1.0 + point2.0 <= i64::MAX,
            i64::MIN <= point1.1 + point2.1 <= i64::MAX,
            i64::MIN <= point1.0 + radius <= i64::MAX,
            i64::MIN <= point1.1 + radius <= i64::MAX,
        ensures
            spec_batch_of(r) == self.spec_rounded_rectangle_batch(point1, point2, radius, v),
    {
        match &self.backend {
            CairoTarget::Xlib(x) => RenderBatch::Cairo(x.rounded_rectangle(point1, point2, radius, v)),
            CairoTarget::WayLand(w) => w.draw_primitive(),
        }
    }

    /// Strokes a line on the concrete target.
    pub fn line(&self, point1: Point2<i64>, point2: Point2<i64>, stroke: i64, v: Vec4) -> (r:
        RenderBatch)
        ensures
            spec_batch_of(r) == self.spec_line_batch(point1, point2, stroke, v),
    {
        match &self.backend {
            CairoTarget::Xlib(x) => RenderBatch::Cairo(x.line(point1, point2, stroke, v)),
            CairoTarget::WayLand(w) => w.draw_primitive(),
        }
    }

    /// Releases the target's native drawing context on teardown; the stub
    /// target owns nothing to release.
    pub fn release(&self) -> (r: RenderBatch)
        ensures
            self.backend is Xlib ==> spec_batch_of(r) == BatchSpec::Cairo(
                seq![CairoCmd::DestroyContext],
            ),
            self.backend is WayLand ==> r is NoOp,
    {
        match &self.backend {
            CairoTarget::Xlib(x) => RenderBatch::Cairo(x.release()),
            CairoTarget::WayLand(_) => RenderBatch::NoOp,
        }
    }
}

/// Creates the rasterizer backend on an X11 window: the shell opens the
/// display connection, queries the window geometry it hands in here, and
/// creates the initial surface and context at exactly that size.
pub fn create_xlib_backend(window: u64, width: u32, height: u32) -> (r: (
    CairoBackend,
    Vec<CairoCmd>,
))
    ensures
        r.0 == (CairoBackend {
            backend: CairoTarget::Xlib(XLibBackend { handle: window, width, height, surface_generation: 0 }),
        }),
        r.1@ == seq![
            CairoCmd::OpenDisplay,
            CairoCmd::CreateSurface { window, width, height },
            CairoCmd::CreateContext,
        ],
{
    let cmds = vec![
        CairoCmd::OpenDisplay,
        CairoCmd::CreateSurface { window, width, height },
        CairoCmd::CreateContext,
    ];
    (
        CairoBackend {
            backend: CairoTarget::Xlib(
                XLibBackend { handle: window, width, height, surface_generation: 0 },
            ),
        },
        cmds,
    )
}

} // verus!
