//! The plain GDI path: a whole-window fill driven directly off a window
//! handle, with colors packed into the 0x00BBGGRR reference format.

use vstd::prelude::*;
use crate::color::Color;
use crate::handle::WindowHandle;

verus! {

/// One native GDI call against a window's device context.
#[derive(Clone, Copy, Debug, PartialEq, Eq, Structural)]
pub enum GdiCmd {
    /// Acquire the window's device context.
    GetDc,
    /// Set the context's brush color to a packed reference value.
    SetDcBrushColor(u32),
    /// Set the context's pen color to a packed reference value.
    SetDcPenColor(u32),
    /// Select the context-color pen into the context.
    SelectDcPen,
    /// Select the context-color brush into the context.
    SelectDcBrush,
    /// Fill a rectangle between two absolute corners.
    Rectangle { left: i32, top: i32, right: i32, bottom: i32 },
    /// Release the device context.
    ReleaseDc,
}

/// The packed color reference of three channels: each channel truncated
/// to a byte, red in the low byte, then green, then blue.
pub open spec fn spec_rgb_ref(r: u32, g: u32, b: u32) -> u32 {
    ((r % 256) + (g % 256) * 256 + (b % 256) * 65536) as u32
}

/// The packed color reference a color maps to; the alpha channel of an
/// explicit color is dropped, since the format carries none.
pub open spec fn spec_colorref(c: Color) -> u32 {
    match c {
        Color::White => spec_rgb_ref(255, 255, 255),
        Color::WhiteGray => spec_rgb_ref(240, 240, 240),
        Color::Gray => spec_rgb_ref(128, 128, 128),
        Color::Black => spec_rgb_ref(0, 0, 0),
        Color::Red => spec_rgb_ref(255, 0, 0),
        Color::Green => spec_rgb_ref(0, 255, 0),
        Color::Blue => spec_rgb_ref(0, 0, 255),
        Color::Rgba(r, g, b, _) => spec_rgb_ref(r, g, b),
    }
}

/// Packs a color into its color reference value.
pub fn get_color(color: Color) -> (r: u32)
    ensures
        r == spec_colorref(color),
{
    let (cr, cg, cb): (u32, u32, u32) = match color {
        Color::White => (255, 255, 255),
        Color::WhiteGray => (240, 240, 240),
        Color::Gray => (128, 128, 128),
        Color::Black => (0, 0, 0),
        Color::Red => (255, 0, 0),
        Color::Green => (0, 255, 0),
        Color::Blue => (0, 0, 255),
        Color::Rgba(r, g, b, _) => (r, g, b),
    };
    (cr % 256) + (cg % 256) * 256 + (cb % 256) * 65536
}

/// The call sequence of a whole-region fill: acquire the context, set both
/// context colors, select pen and brush, fill the region, release.
pub open spec fn spec_gdi_fill_cmds(colorref: u32, left: i32, top: i32, right: i32, bottom: i32) -> Seq<
    GdiCmd,
> {
    seq![
        GdiCmd::GetDc,
        GdiCmd::SetDcBrushColor(colorref),
        GdiCmd::SetDcPenColor(colorref),
        GdiCmd::SelectDcPen,
        GdiCmd::SelectDcBrush,
        GdiCmd::Rectangle { left, top, right, bottom },
        GdiCmd::ReleaseDc,
    ]
}

/// Fills the whole screen region behind a window with a solid color.
/// Without a stored handle nothing was initialized: a failure. On a Win32
/// handle the fill covers the screen extent the shell read; every other
/// platform accepts the call without effect, since this path only knows
/// how to drive GDI.
pub fn fill(handle: &Option<WindowHandle>, color: Color, screen_width: i32, screen_height: i32) -> (r:
    Result<Vec<GdiCmd>, ()>)
    ensures
        r is Err <==> handle is None,
        *handle matches Some(h) ==> (h is Win32 ==> ({
            &&& r matches Ok(cmds)
            &&& cmds@ == spec_gdi_fill_cmds(spec_colorref(color), 0, 0, screen_width, screen_height)
        })),
        *handle matches Some(h) ==> (!(h is Win32) ==> ({
            &&& r matches Ok(cmds)
            &&& cmds@.len() == 0
        })),
{
    match handle {
        None => Err(()),
        Some(h) => match h {
            WindowHandle::Win32 { .. } => {
                let colorref = get_color(color);
                let cmds = vec![
                    GdiCmd::GetDc,
                    GdiCmd::SetDcBrushColor(colorref),
                    GdiCmd::SetDcPenColor(colorref),
                    GdiCmd::SelectDcPen,
                    GdiCmd::SelectDcBrush,
                    GdiCmd::Rectangle { left: 0, top: 0, right: screen_width, bottom: screen_height },
                    GdiCmd::ReleaseDc,
                ];
                Ok(cmds)
            },
            _ => Ok(Vec::new()),
        },
    }
}

} // verus!
