//! The hardware render-target backend: a retained target bound to a Win32
//! window, recreated whenever the client area changed between frames.
//!
//! Each drawing call resolves its paint into a brush description scoped to
//! that single call and returns the native draw command carrying it; the
//! shell constructs the real brush object and issues the fill.

use vstd::prelude::*;
use crate::color::{BrushSpec, Paint, Vec4, resolve_brush, spec_brush_of, spec_vec4_of};
use crate::geometry::Point2;

verus! {

/// A window's client area as the windowing system reports it.
#[derive(Clone, Copy, Debug, PartialEq, Eq, Structural)]
pub struct ClientRect {
    pub left: i32,
    pub top: i32,
    pub right: i32,
    pub bottom: i32,
}

/// The width the client area spans.
pub open spec fn spec_client_width(rect: ClientRect) -> int {
    rect.right - rect.left
}

/// The height the client area spans.
pub open spec fn spec_client_height(rect: ClientRect) -> int {
    rect.bottom - rect.top
}

/// The line-cap styles a stroke style can carry.
#[derive(Clone, Copy, Debug, PartialEq, Eq, Structural)]
pub enum CapStyle {
    Round,
    Triangle,
}

/// The stroke style built fresh for each line call.
#[derive(Clone, Copy, Debug, PartialEq, Eq, Structural)]
pub struct StrokeStyleSpec {
    pub start_cap: CapStyle,
    pub end_cap: CapStyle,
}

/// One native call of the render-target API. Brushes are embedded in the
/// draw command that uses them: they are constructed per call and never
/// cached across frames.
#[derive(Clone, Debug, PartialEq)]
pub enum D2dCmd {
    /// Create the device-independent factory once at construction.
    CreateFactory,
    /// Create a render target of the given pixel size on the window.
    CreateHwndRenderTarget { hwnd: isize, width: u32, height: u32 },
    /// Open the target's draw session.
    BeginDraw,
    /// Commit the target's draw list.
    EndDraw,
    /// Fill the whole target with a solid color.
    Clear { color: Vec4 },
    FillRectangle { left: i64, top: i64, right: i64, bottom: i64, brush: BrushSpec },
    FillEllipse { cx: i64, cy: i64, radius_x: i64, radius_y: i64, brush: BrushSpec },
    FillRoundedRectangle {
        left: i64,
        top: i64,
        right: i64,
        bottom: i64,
        radius_x: i64,
        radius_y: i64,
        brush: BrushSpec,
    },
    DrawLine { x1: i64, y1: i64, x2: i64, y2: i64, stroke: i64, brush: BrushSpec, style: StrokeStyleSpec },
}

/// The render-target backend bound to one Win32 window.
#[derive(Clone, Copy, Debug, PartialEq, Eq, Structural)]
pub struct Direct2DBackend {
    /// The native window handle value.
    pub handle: isize,
    /// Width of the render target currently in use.
    pub width: u32,
    /// Height of the render target currently in use.
    pub height: u32,
    /// How many times the target has been recreated.
    pub target_generation: u64,
}

/// The state after the target gate has seen the freshly read client area:
/// the target is recreated at the new size exactly when the dimensions
/// changed, and the cached size then follows the new target.
pub open spec fn spec_d2d_updated(b: Direct2DBackend, rect: ClientRect) -> Direct2DBackend {
    if spec_client_width(rect) != b.width || spec_client_height(rect) != b.height {
        Direct2DBackend {
            handle: b.handle,
            width: spec_client_width(rect) as u32,
            height: spec_client_height(rect) as u32,
            target_generation: (b.target_generation + 1) as u64,
        }
    } else {
        b
    }
}

/// The native calls the target gate issues: one target recreation when the
/// client area changed, nothing otherwise.
pub open spec fn spec_d2d_update_cmds(b: Direct2DBackend, rect: ClientRect) -> Seq<D2dCmd> {
    if spec_client_width(rect) != b.width || spec_client_height(rect) != b.height {
        seq![
            D2dCmd::CreateHwndRenderTarget {
                hwnd: b.handle,
                width: spec_client_width(rect) as u32,
                height: spec_client_height(rect) as u32,
            },
        ]
    } else {
        Seq::empty()
    }
}

/// The solid color a clear paints with: a gradient is reduced to its first
/// stop, since a gradient is not meaningful for a full clear.
pub open spec fn spec_clear_color(paint: Paint) -> Vec4 {
    match paint {
        Paint::Solid(c) => spec_vec4_of(c),
        Paint::Gradient(stops, _, _) => spec_vec4_of(stops@[0]),
    }
}

/// A well-formed client area: the corners are ordered.
pub open spec fn spec_rect_wf(rect: ClientRect) -> bool {
    rect.left <= rect.right && rect.top <= rect.bottom
}

/// The size bound a paint must satisfy before its gradient stops can be
/// counted with native positions.
pub open spec fn spec_paint_wf(paint: Paint) -> bool {
    paint matches Paint::Gradient(stops, _, _) ==> stops@.len() < u32::MAX
}

impl Direct2DBackend {
    /// Creates the backend on a window: the shell creates the factory and
    /// the first render target sized to the client area it read and hands
    /// in here.
    pub fn new(hwnd: isize, rect: ClientRect) -> (r: (Direct2DBackend, Vec<D2dCmd>))
        requires
            spec_rect_wf(rect),
        ensures
            r.0 == (Direct2DBackend {
                handle: hwnd,
                width: spec_client_width(rect) as u32,
                height: spec_client_height(rect) as u32,
                target_generation: 0,
            }),
            r.1@.len() == 2,
            r.1@[0] is CreateFactory,
            r.1@[1] == (D2dCmd::CreateHwndRenderTarget {
                hwnd,
                width: spec_client_width(rect) as u32,
                height: spec_client_height(rect) as u32,
            }),
    {
        let width = ((rect.right as i64) - (rect.left as i64)) as u32;
        let height = ((rect.bottom as i64) - (rect.top as i64)) as u32;
        let cmds = vec![
            D2dCmd::CreateFactory,
            D2dCmd::CreateHwndRenderTarget { hwnd, width, height },
        ];
        (Direct2DBackend { handle: hwnd, width, height, target_generation: 0 }, cmds)
    }

    /// Starts a frame: re-reads the client area (handed in by the shell),
    /// recreates the target if the dimensions changed, then opens the draw
    /// session.
    pub fn begin_draw(&mut self, rect: ClientRect) -> (cmds: Vec<D2dCmd>)
        requires
            spec_rect_wf(rect),
            old(self).target_generation < u64::MAX,
        ensures
            *final(self) == spec_d2d_updated(*old(self), rect),
            cmds@ == spec_d2d_update_cmds(*old(self), rect).push(D2dCmd::BeginDraw),
    {
        let mut cmds = self.update_target(rect);
        cmds.push(D2dCmd::BeginDraw);
        cmds
    }

    /// Ends a frame by committing the target's draw list.
    pub fn flush(&self) -> (cmds: Vec<D2dCmd>)
        ensures
            cmds@ == seq![D2dCmd::EndDraw],
    {
        let cmds = vec![D2dCmd::EndDraw];
        cmds
    }

    /// Reports the render target's size. The target is recreated to match
    /// the client area at the top of every frame, so this is the current
    /// surface size; a pure query.
    pub fn get_display_size(&self) -> (r: (u32, u32))
        ensures
            r == (self.width, self.height),
    {
        (self.width, self.height)
    }

    /// Fills the whole target with a solid color; a gradient paint is
    /// reduced to its first stop.
    pub fn clear(&self, paint: &Paint) -> (cmds: Vec<D2dCmd>)
        requires
            paint matches Paint::Gradient(stops, _, _) ==> stops@.len() > 0,
        ensures
            cmds@.len() == 1,
            cmds@[0] == (D2dCmd::Clear { color: spec_clear_color(*paint) }),
    {
        match paint {
            Paint::Solid(c) => vec![D2dCmd::Clear { color: Vec4::from(*c) }],
            Paint::Gradient(stops, _, _) => vec![D2dCmd::Clear { color: Vec4::from(stops[0]) }],
        }
    }

    /// Fills a circle whose bounding box has its top-left corner at
    /// `point`, with a brush resolved from the paint for this single call.
    pub fn ellipse(&self, point: Point2<i64>, radius: i64, paint: &Paint) -> (cmds: Vec<D2dCmd>)
        requires
            spec_paint_wf(*paint),
            i64::MIN <= point.0 + radius <= i64::MAX,
            i64::MIN <= point.1 + radius <= i64::MAX,
        ensures
            cmds@.len() == 1,
            cmds@[0] matches D2dCmd::FillEllipse { cx, cy, radius_x, radius_y, brush }
                && cx == point.0 + radius
                && cy == point.1 + radius
                && radius_x == radius
                && radius_y == radius
                && spec_brush_of(*paint, brush),
    {
        let brush = resolve_brush(paint);
        vec![
            D2dCmd::FillEllipse {
                cx: point.0 + radius,
                cy: point.1 + radius,
                radius_x: radius,
                radius_y: radius,
                brush,
            },
        ]
    }

    /// Fills a rectangle whose top-left corner is `point1` and whose extent
    /// is `point2`: the native region runs from `point1` to
    /// `point1 + point2`, so the second point is a width and height, not a
    /// second corner.
    pub fn rectangle(&self, point1: Point2<i64>, point2: Point2<i64>, paint: &Paint) -> (cmds:
        Vec<D2dCmd>)
        requires
            spec_paint_wf(*paint),
            i64::MIN <= point1.0 + point2.0 <= i64::MAX,
            i64::MIN <= point1.1 + point2.1 <= i64::MAX,
        ensures
            cmds@.len() == 1,
            cmds@[0] matches D2dCmd::FillRectangle { left, top, right, bottom, brush }
                && left == point1.0
                && top == point1.1
                && right == point1.0 + point2.0
                && bottom == point1.1 + point2.1
                && spec_brush_of(*paint, brush),
    {
        let brush = resolve_brush(paint);
        vec![
            D2dCmd::FillRectangle {
                left: point1.0,
                top: point1.1,
                right: point1.0 + point2.0,
                bottom: point1.1 + point2.1,
                brush,
            },
        ]
    }

    /// Fills a rounded rectangle over the same region as `rectangle`, with
    /// the corner radius applied on both axes.
    pub fn rounded_rectangle(
        &self,
        point1: Point2<i64>,
        point2: Point2<i64>,
        radius: i64,
        paint: &Paint,
    ) -> (cmds: Vec<D2dCmd>)
        requires
            spec_paint_wf(*paint),
            i64::MIN <= point1.0 + point2.0 <= i64::MAX,
            i64::MIN <= point1.1 + point2.1 <= i64::MAX,
        ensures
            cmds@.len() == 1,
            cmds@[0] matches D2dCmd::FillRoundedRectangle {
                left,
                top,
                right,
                bottom,
                radius_x,
                radius_y,
                brush,
            }
                && left == point1.0
                && top == point1.1
                && right == point1.0 + point2.0
                && bottom == point1.1 + point2.1
                && radius_x == radius
                && radius_y == radius
                && spec_brush_of(*paint, brush),
    {
        let brush = resolve_brush(paint);
        vec![
            D2dCmd::FillRoundedRectangle {
                left: point1.0,
                top: point1.1,
                right: point1.0 + point2.0,
                bottom: point1.1 + point2.1,
                radius_x: radius,
                radius_y: radius,
                brush,
            },
        ]
    }

    /// Draws a line between two absolute points with a per-call brush and a
    /// per-call stroke style with a round start cap and a triangle end cap.
    pub fn line(&self, point1: Point2<i64>, point2: Point2<i64>, stroke: i64, paint: &Paint) -> (cmds:
        Vec<D2dCmd>)
        requires
            spec_paint_wf(*paint),
        ensures
            cmds@.len() == 1,
            cmds@[0] matches D2dCmd::DrawLine { x1, y1, x2, y2, stroke: s, brush, style }
                && x1 == point1.0
                && y1 == point1.1
                && x2 == point2.0
                && y2 == point2.1
                && s == stroke
                && spec_brush_of(*paint, brush)
                && style == (StrokeStyleSpec { start_cap: CapStyle::Round, end_cap: CapStyle::Triangle }),
    {
        let brush = resolve_brush(paint);
        vec![
            D2dCmd::DrawLine {
                x1: point1.0,
                y1: point1.1,
                x2: point2.0,
                y2: point2.1,
                stroke,
                brush,
                style: StrokeStyleSpec { start_cap: CapStyle::Round, end_cap: CapStyle::Triangle },
            },
        ]
    }

    /// The target gate: re-reads the client area and recreates the render
    /// target only when the dimensions changed since the previous frame.
    fn update_target(&mut self, rect: ClientRect) -> (cmds: Vec<D2dCmd>)
        requires
            spec_rect_wf(rect),
            old(self).target_generation < u64::MAX,
        ensures
            *final(self) == spec_d2d_updated(*old(self), rect),
            cmds@ == spec_d2d_update_cmds(*old(self), rect),
    {
        let width = ((rect.right as i64) - (rect.left as i64)) as u32;
        let height = ((rect.bottom as i64) - (rect.top as i64)) as u32;
        if width != self.width || height != self.height {
            self.width = width;
            self.height = height;
            self.target_generation = self.target_generation + 1;
            vec![D2dCmd::CreateHwndRenderTarget { hwnd: self.handle, width, height }]
        } else {
            Vec::new()
        }
    }
}

/// Creates the render-target backend for a window handle; the shell reads
/// the client area first and hands it in.
pub fn create_backend(hwnd: isize, rect: ClientRect) -> (r: Result<
    (Direct2DBackend, Vec<D2dCmd>),
    (),
>)
    requires
        spec_rect_wf(rect),
    ensures
        r matches Ok((backend, cmds)) && backend == (Direct2DBackend {
            handle: hwnd,
            width: spec_client_width(rect) as u32,
            height: spec_client_height(rect) as u32,
            target_generation: 0,
        }) && cmds@.len() == 2,
{
    let (backend, cmds) = Direct2DBackend::new(hwnd, rect);
    Ok((backend, cmds))
}

/// A rectangle of extent `point2` at origin `point1` occupies exactly the
/// region whose top-left corner is `point1` and whose width and height are
/// `point2`: the second argument never names a second absolute corner.
pub proof fn lemma_rectangle_extent_region(point1: Point2<i64>, point2: Point2<i64>)
    ensures
        point1.0 + point2.0 - point1.0 == point2.0,
        point1.1 + point2.1 - point1.1 == point2.1,
{
}

} // verus!
