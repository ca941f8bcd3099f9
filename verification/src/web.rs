//! The browser-canvas backend: the drawing surface is a canvas element's
//! CSS box, and solid colors become `rgba(...)` style strings the shell
//! formats from the channel quadruple carried on each style command.

use vstd::prelude::*;
use crate::color::Vec4;
use crate::geometry::Point2;
use crate::RenderBatch;

verus! {

/// One native call against the canvas element and its 2D context.
#[derive(Clone, Copy, Debug, PartialEq, Eq, Structural)]
pub enum WebCmd {
    /// Look up the canvas element under the library's well-known id.
    GetDefaultCanvas,
    /// Append the canvas element to the document body.
    AppendCanvasToBody,
    /// Set the element's display style to the given logical size.
    SetCssSize { width: u32, height: u32 },
    /// Open a fresh path on the 2D context.
    BeginPath,
    /// Fill the accumulated path; issued at the end of a frame.
    FillPath,
    /// Assign the fill style from the channel quadruple.
    SetFillStyle { r: u32, g: u32, b: u32, a: u32 },
    /// Assign the stroke style from the channel quadruple.
    SetStrokeStyle { r: u32, g: u32, b: u32, a: u32 },
    /// Set the 2D context's line width for the next stroke.
    SetLineWidth(i64),
    /// Fill a rectangle; the four numbers go straight to the native call.
    FillRect { x: i64, y: i64, w: i64, h: i64 },
    MoveTo { x: i64, y: i64 },
    LineTo { x: i64, y: i64 },
    /// Stroke the current path.
    StrokePath,
}

/// The browser-canvas backend.
#[derive(Clone, Copy, Debug, PartialEq, Eq, Structural)]
pub struct WebBackend {
    /// Cached logical width of the element's CSS box.
    pub width: u32,
    /// Cached logical height of the element's CSS box.
    pub height: u32,
    /// The last-used red channel.
    pub r: u32,
    /// The last-used green channel.
    pub g: u32,
    /// The last-used blue channel.
    pub b: u32,
    /// The last-used alpha channel.
    pub a: u32,
}

/// The state after the size gate has seen the window's freshly read inner
/// size: the cached size follows it exactly when it changed.
pub open spec fn spec_web_scaled(b: WebBackend, width: u32, height: u32) -> WebBackend {
    if width != b.width || height != b.height {
        WebBackend { width, height, r: b.r, g: b.g, b: b.b, a: b.a }
    } else {
        b
    }
}

/// The native calls the size gate issues: one style update to the new
/// size when it changed, nothing otherwise.
pub open spec fn spec_web_scale_cmds(b: WebBackend, width: u32, height: u32) -> Seq<WebCmd> {
    if width != b.width || height != b.height {
        seq![WebCmd::SetCssSize { width, height }]
    } else {
        Seq::empty()
    }
}

/// Creates the canvas backend: the shell reads the window's inner size and
/// hands it in; the element is looked up under the library's well-known id
/// (the caller-supplied id is informational only), sized to the window,
/// and appended to the document body.
#[allow(unused_variables)]
pub fn create_backend(id: u32, width: u32, height: u32) -> (r: (WebBackend, Vec<WebCmd>))
    ensures
        r.0 == (WebBackend { width, height, r: 255, g: 255, b: 255, a: 255 }),
        r.1@ == seq![
            WebCmd::GetDefaultCanvas,
            WebCmd::SetCssSize { width, height },
            WebCmd::AppendCanvasToBody,
        ],
{
    let cmds = vec![
        WebCmd::GetDefaultCanvas,
        WebCmd::SetCssSize { width, height },
        WebCmd::AppendCanvasToBody,
    ];
    (WebBackend { width, height, r: 255, g: 255, b: 255, a: 255 }, cmds)
}

impl WebBackend {
    /// Starts a frame: re-reads the window's inner size (handed in by the
    /// shell), refreshes the element's CSS box if it changed, and opens a
    /// fresh path.
    pub fn begin_draw(&mut self, width: u32, height: u32) -> (cmds: Vec<WebCmd>)
        ensures
            *final(self) == spec_web_scaled(*old(self), width, height),
            cmds@ == spec_web_scale_cmds(*old(self), width, height).push(WebCmd::BeginPath),
    {
        let mut cmds = self.scale(width, height);
        cmds.push(WebCmd::BeginPath);
        cmds
    }

    /// Ends a frame by filling the accumulated path.
    pub fn flush(&self) -> (cmds: Vec<WebCmd>)
        ensures
            cmds@ == seq![WebCmd::FillPath],
    {
        vec![WebCmd::FillPath]
    }

    /// Reports the window's freshly read inner size, refreshing the
    /// element's CSS box on the way so a stale size is never observable.
    pub fn get_display_size(&mut self, width: u32, height: u32) -> (r: ((u32, u32), Vec<WebCmd>))
        ensures
            *final(self) == spec_web_scaled(*old(self), width, height),
            r.0 == (width, height),
            r.1@ == spec_web_scale_cmds(*old(self), width, height),
    {
        let cmds = self.scale(width, height);
        ((width, height), cmds)
    }

    /// Fills the full element bounds with a solid color.
    pub fn clear(&self, v: Vec4) -> (cmds: Vec<WebCmd>)
        ensures
            cmds@ == seq![
                WebCmd::SetFillStyle { r: v.0, g: v.1, b: v.2, a: v.3 },
                WebCmd::FillRect { x: 0, y: 0, w: self.width as i64, h: self.height as i64 },
            ],
    {
        vec![
            WebCmd::SetFillStyle { r: v.0, g: v.1, b: v.2, a: v.3 },
            WebCmd::FillRect { x: 0, y: 0, w: self.width as i64, h: self.height as i64 },
        ]
    }

    /// Fills a rectangle. The two points are handed to the native fill-rect
    /// call exactly as given, with no arithmetic on them; this differs from
    /// the extent arithmetic of the render-target backend and is kept as
    /// per-backend documented behavior.
    pub fn rectangle(&self, point1: Point2<i64>, point2: Point2<i64>, v: Vec4) -> (cmds: Vec<
        WebCmd,
    >)
        ensures
            cmds@ == seq![
                WebCmd::SetFillStyle { r: v.0, g: v.1, b: v.2, a: v.3 },
                WebCmd::FillRect { x: point1.0, y: point1.1, w: point2.0, h: point2.1 },
            ],
    {
        vec![
            WebCmd::SetFillStyle { r: v.0, g: v.1, b: v.2, a: v.3 },
            WebCmd::FillRect { x: point1.0, y: point1.1, w: point2.0, h: point2.1 },
        ]
    }

    /// Strokes a line between two absolute points with the given stroke
    /// width: the context's line width is set before the path is stroked.
    pub fn line(&self, point1: Point2<i64>, point2: Point2<i64>, stroke: i64, v: Vec4) -> (cmds:
        Vec<WebCmd>)
        ensures
            cmds@ == seq![
                WebCmd::SetFillStyle { r: v.0, g: v.1, b: v.2, a: v.3 },
                WebCmd::SetStrokeStyle { r: v.0, g: v.1, b: v.2, a: v.3 },
                WebCmd::SetLineWidth(stroke),
                WebCmd::MoveTo { x: point1.0, y: point1.1 },
                WebCmd::LineTo { x: point2.0, y: point2.1 },
                WebCmd::StrokePath,
            ],
    {
        vec![
            WebCmd::SetFillStyle { r: v.0, g: v.1, b: v.2, a: v.3 },
            WebCmd::SetStrokeStyle { r: v.0, g: v.1, b: v.2, a: v.3 },
            WebCmd::SetLineWidth(stroke),
            WebCmd::MoveTo { x: point1.0, y: point1.1 },
            WebCmd::LineTo { x: point2.0, y: point2.1 },
            WebCmd::StrokePath,
        ]
    }

    /// The ellipse and rounded-rectangle primitives are not implemented on
    /// this backend: each call is an explicit not-yet-implemented stop.
    pub fn draw_unimplemented(&self) -> (r: RenderBatch)
        ensures
            r is Unimplemented,
    {
        RenderBatch::Unimplemented
    }

    /// Records the last-used channel quadruple.
    pub fn set_rgba(&mut self, r: u32, g: u32, b: u32, a: u32)
        ensures
            *final(self) == (WebBackend {
                width: old(self).width,
                height: old(self).height,
                r,
                g,
                b,
                a,
            }),
    {
        self.r = r;
        self.g = g;
        self.b = b;
        self.a = a;
    }

    /// The size gate: refreshes the element's CSS box and the cached size
    /// exactly when the window's inner size changed.
    fn scale(&mut self, width: u32, height: u32) -> (cmds: Vec<WebCmd>)
        ensures
            *final(self) == spec_web_scaled(*old(self), width, height),
            cmds@ == spec_web_scale_cmds(*old(self), width, height),
    {
        if width != self.width || height != self.height {
            self.width = width;
            self.height = height;
            vec![WebCmd::SetCssSize { width, height }]
        } else {
            Vec::new()
        }
    }
}

} // verus!
