use bly::dx2d::ClientRect;
use bly::wayland::EglSetupStep as S;
use bly::handle::{BlyError, WindowHandle};
use bly::{Backend, CanvasGuard, SetupBatch, SizeProbe, create_canvas};

fn fresh_guard() -> CanvasGuard {
    CanvasGuard::default()
}

#[test]
fn xlib_handle_selects_the_rasterizer_backend() {
    let mut guard = fresh_guard();
    let handle = WindowHandle::Xlib { window: 77 };
    let r = create_canvas(&mut guard, &handle, SizeProbe::Geometry(640, 480));
    let (canvas, setup) = r.expect("a supported platform must initialize");
    assert!(guard.created);
    assert!(!canvas.painter.frame_open);
    match canvas.painter.backend {
        Backend::Unix(_) => {},
        _ => panic!("the X11 handle must select the Unix rasterizer backend"),
    }
    match setup {
        SetupBatch::Cairo(cmds) => assert_eq!(cmds.len(), 3),
        _ => panic!("the X11 handle must set up through the rasterizer API"),
    }
}

#[test]
fn wayland_handle_selects_the_gl_backend() {
    let mut guard = fresh_guard();
    let handle = WindowHandle::Wayland { surface: 0x1000 };
    let r = create_canvas(&mut guard, &handle, SizeProbe::NoProbe);
    let (_, setup) = r.expect("a supported platform must initialize");
    match setup {
        SetupBatch::Egl(steps) => {
            // The strict construction ordering of the GL backend.
            assert_eq!(steps.len(), 8);
            assert_eq!(steps[0], S::ConnectDisplay);
            assert_eq!(steps[1], S::GetDisplay);
            assert_eq!(steps[2], S::Initialize);
            assert_eq!(steps[3], S::ChooseConfig);
            assert_eq!(steps[4], S::CreateNativeWindow { width: 520, height: 520 });
            assert_eq!(steps[5], S::CreateWindowSurface);
            assert_eq!(steps[6], S::CreateContext { client_version: 2 });
            assert_eq!(steps[7], S::MakeCurrent);
        },
        _ => panic!("the Wayland handle must set up through EGL"),
    }
}

#[test]
fn win32_handle_selects_the_render_target_backend() {
    let mut guard = fresh_guard();
    let handle = WindowHandle::Win32 { hwnd: 42 };
    let rect = ClientRect { left: 0, top: 0, right: 800, bottom: 600 };
    let r = create_canvas(&mut guard, &handle, SizeProbe::Client(rect));
    let (canvas, setup) = r.expect("a supported platform must initialize");
    match canvas.painter.backend {
        Backend::D2d(d) => {
            assert_eq!(d.handle, 42);
            assert_eq!(d.get_display_size(), (800, 600));
        },
        _ => panic!("the Win32 handle must select the render-target backend"),
    }
    match setup {
        SetupBatch::D2d(cmds) => assert_eq!(cmds.len(), 2),
        _ => panic!("the Win32 handle must set up through the render-target API"),
    }
}

#[test]
fn web_handle_selects_the_canvas_backend() {
    let mut guard = fresh_guard();
    let handle = WindowHandle::Web { id: 7 };
    let r = create_canvas(&mut guard, &handle, SizeProbe::Inner(300, 200));
    let (canvas, setup) = r.expect("a supported platform must initialize");
    match canvas.painter.backend {
        Backend::Web(b) => {
            assert_eq!(b.width, 300);
            assert_eq!(b.height, 200);
        },
        _ => panic!("the Web handle must select the canvas backend"),
    }
    match setup {
        SetupBatch::Web(cmds) => assert_eq!(cmds.len(), 3),
        _ => panic!("the Web handle must set up through the canvas API"),
    }
}

#[test]
fn every_unsupported_variant_is_a_typed_failure() {
    let unsupported = [
        WindowHandle::UiKit,
        WindowHandle::AppKit,
        WindowHandle::Orbital,
        WindowHandle::Xcb,
        WindowHandle::Drm,
        WindowHandle::Gbm,
        WindowHandle::WinRt,
        WindowHandle::AndroidNdk,
        WindowHandle::Haiku,
        WindowHandle::Unknown,
    ];
    for handle in unsupported {
        let mut guard = fresh_guard();
        let r = create_canvas(&mut guard, &handle, SizeProbe::NoProbe);
        match r {
            Err(BlyError::UnsupportedPlatform) => {},
            _ => panic!("an unsupported handle must give the typed failure"),
        }
        // Even a failed attempt spends the one-shot guard.
        assert!(guard.created);
    }
}

#[test]
fn initialization_spends_the_guard() {
    let mut guard = fresh_guard();
    assert!(!guard.created);
    let handle = WindowHandle::Xlib { window: 1 };
    let r = create_canvas(&mut guard, &handle, SizeProbe::Geometry(10, 10));
    assert!(r.is_ok());
    assert!(guard.created);
}

#[test]
fn is_supported_matches_the_dispatcher() {
    assert!(WindowHandle::Xlib { window: 0 }.is_supported());
    assert!(WindowHandle::Wayland { surface: 0 }.is_supported());
    assert!(WindowHandle::Win32 { hwnd: 0 }.is_supported());
    assert!(WindowHandle::Web { id: 0 }.is_supported());
    assert!(!WindowHandle::UiKit.is_supported());
    assert!(!WindowHandle::Haiku.is_supported());
    assert!(!WindowHandle::Unknown.is_supported());
}
