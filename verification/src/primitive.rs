//! A retained rectangle value for the plain GDI path: two absolute corners
//! packed into a channel quadruple, plus its fill color.

use vstd::prelude::*;
use crate::color::{Color, Vec4};
use crate::gdi::{GdiCmd, get_color, spec_colorref, spec_gdi_fill_cmds};
use crate::handle::WindowHandle;

verus! {

/// A rectangle between two absolute corners, stored as the quadruple
/// (left, top, right, bottom), with its fill color.
#[derive(Clone, Copy, Debug, PartialEq, Eq, Structural)]
pub struct Rectangle {
    pub vertex: Vec4,
    pub color: Color,
}

impl Rectangle {
    pub fn new(vertex: Vec4, color: Color) -> (r: Self)
        ensures
            r.vertex == vertex,
            r.color == color,
    {
        Rectangle { vertex, color }
    }
}

/// Draws a retained rectangle through the plain GDI path. Without a stored
/// handle nothing was initialized: a failure. On a Win32 handle the fill
/// runs between the rectangle's two absolute corners, each coordinate
/// truncated to the native integer type; every other platform accepts the
/// call without effect, since this path only knows how to drive GDI.
pub fn draw_rect(handle: &Option<WindowHandle>, rect: Rectangle) -> (r: Result<Vec<GdiCmd>, ()>)
    ensures
        r is Err <==> handle is None,
        *handle matches Some(h) ==> (h is Win32 ==> ({
            &&& r matches Ok(cmds)
            &&& cmds@ == spec_gdi_fill_cmds(
                spec_colorref(rect.color),
                rect.vertex.0 as i32,
                rect.vertex.1 as i32,
                rect.vertex.2 as i32,
                rect.vertex.3 as i32,
            )
        })),
        *handle matches Some(h) ==> (!(h is Win32) ==> ({
            &&& r matches Ok(cmds)
            &&& cmds@.len() == 0
        })),
{
    match handle {
        None => Err(()),
        Some(h) => match h {
            WindowHandle::Win32 { .. } => {
                let colorref = get_color(rect.color);
                #[verifier::truncate]
                let left = rect.vertex.0 as i32;
                #[verifier::truncate]
                let top = rect.vertex.1 as i32;
                #[verifier::truncate]
                let right = rect.vertex.2 as i32;
                #[verifier::truncate]
                let bottom = rect.vertex.3 as i32;
                let cmds = vec![
                    GdiCmd::GetDc,
                    GdiCmd::SetDcBrushColor(colorref),
                    GdiCmd::SetDcPenColor(colorref),
                    GdiCmd::SelectDcPen,
                    GdiCmd::SelectDcBrush,
                    GdiCmd::Rectangle { left, top, right, bottom },
                    GdiCmd::ReleaseDc,
                ];
                Ok(cmds)
            },
            _ => Ok(Vec::new()),
        },
    }
}

} // verus!
