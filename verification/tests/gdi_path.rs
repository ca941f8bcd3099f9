use bly::color::{Color, Vec4};
use bly::gdi::{GdiCmd, fill, get_color};
use bly::handle::WindowHandle;
use bly::primitive::{Rectangle, draw_rect};

#[test]
fn colorref_packs_red_low() {
    assert_eq!(get_color(Color::Red), 0x0000FF);
    assert_eq!(get_color(Color::Green), 0x00FF00);
    assert_eq!(get_color(Color::Blue), 0xFF0000);
    assert_eq!(get_color(Color::White), 0xFFFFFF);
    assert_eq!(get_color(Color::Black), 0x000000);
    assert_eq!(get_color(Color::Gray), 0x808080);
    assert_eq!(get_color(Color::WhiteGray), 0xF0F0F0);
}

#[test]
fn colorref_truncates_each_channel_to_a_byte() {
    // 261 % 256 == 5; the alpha channel is dropped.
    assert_eq!(get_color(Color::Rgba(261, 2, 3, 9)), 5 + 2 * 256 + 3 * 65536);
}

#[test]
fn fill_without_initialization_fails() {
    assert_eq!(fill(&None, Color::Red, 1920, 1080), Err(()));
}

#[test]
fn fill_on_win32_covers_the_screen() {
    let handle = Some(WindowHandle::Win32 { hwnd: 3 });
    let cmds = fill(&handle, Color::Red, 1920, 1080).expect("initialized fill must go through");
    assert_eq!(cmds.len(), 7);
    assert_eq!(cmds[0], GdiCmd::GetDc);
    assert_eq!(cmds[1], GdiCmd::SetDcBrushColor(0x0000FF));
    assert_eq!(cmds[2], GdiCmd::SetDcPenColor(0x0000FF));
    assert_eq!(cmds[5], GdiCmd::Rectangle { left: 0, top: 0, right: 1920, bottom: 1080 });
    assert_eq!(cmds[6], GdiCmd::ReleaseDc);
}

#[test]
fn fill_elsewhere_is_accepted_without_effect() {
    let handle = Some(WindowHandle::Xlib { window: 2 });
    let cmds = fill(&handle, Color::Red, 1920, 1080).expect("the call is accepted");
    assert!(cmds.is_empty());
}

#[test]
fn draw_rect_uses_the_stored_corners_and_color() {
    let rect = Rectangle::new(Vec4(10, 20, 110, 220), Color::Blue);
    let handle = Some(WindowHandle::Win32 { hwnd: 3 });
    let cmds = draw_rect(&handle, rect).expect("initialized draw must go through");
    assert_eq!(cmds[1], GdiCmd::SetDcBrushColor(0xFF0000));
    assert_eq!(cmds[5], GdiCmd::Rectangle { left: 10, top: 20, right: 110, bottom: 220 });
}

#[test]
fn draw_rect_without_initialization_fails() {
    let rect = Rectangle::new(Vec4(0, 0, 1, 1), Color::Red);
    assert_eq!(draw_rect(&None, rect), Err(()));
}
