use bly::cairo::{CairoCmd, WayLandBackend, create_xlib_backend};
use bly::color::{BrushSpec, Color, GradientType, Paint, Vec4};
use bly::dx2d::{CapStyle, ClientRect, D2dCmd, Direct2DBackend};
use bly::geometry::Point2;
use bly::wayland::EglCmd;
use bly::web::WebCmd;
use bly::{RenderBatch, SizeResult};

fn d2d(width: i32, height: i32) -> Direct2DBackend {
    let rect = ClientRect { left: 0, top: 0, right: width, bottom: height };
    let (backend, cmds) =
        bly::dx2d::create_backend(11, rect).expect("construction is always accepted");
    assert_eq!(cmds.len(), 2);
    backend
}

#[test]
fn rectangle_extent_is_added_to_the_origin() {
    // The documented convention: extent (100, 100) at origin (10, 10)
    // fills exactly the 100 by 100 region with its top-left at (10, 10).
    let backend = d2d(800, 600);
    let cmds = backend.rectangle(Point2(10, 10), Point2(100, 100), &Paint::Solid(Color::Red));
    assert_eq!(cmds.len(), 1);
    match &cmds[0] {
        D2dCmd::FillRectangle { left, top, right, bottom, brush } => {
            assert_eq!((*left, *top, *right, *bottom), (10, 10, 110, 110));
            assert_eq!(right - left, 100);
            assert_eq!(bottom - top, 100);
            match brush {
                BrushSpec::Solid(v) => assert_eq!(*v, Vec4(255, 0, 0, 255)),
                _ => panic!("a solid paint must give a solid brush"),
            }
        },
        _ => panic!("a rectangle resolves to one native rectangle fill"),
    }
}

#[test]
fn target_is_recreated_only_when_the_client_area_changed() {
    let mut backend = d2d(800, 600);
    let same = ClientRect { left: 0, top: 0, right: 800, bottom: 600 };
    let cmds = backend.begin_draw(same);
    assert_eq!(cmds.as_slice(), &[D2dCmd::BeginDraw]);

    let grown = ClientRect { left: 0, top: 0, right: 1024, bottom: 768 };
    let cmds = backend.begin_draw(grown);
    assert_eq!(cmds.len(), 2);
    match &cmds[0] {
        D2dCmd::CreateHwndRenderTarget { hwnd, width, height } => {
            assert_eq!((*hwnd, *width, *height), (11, 1024, 768));
        },
        _ => panic!("a changed client area must recreate the target first"),
    }
    assert!(matches!(cmds[1], D2dCmd::BeginDraw));
    assert_eq!(backend.get_display_size(), (1024, 768));
}

#[test]
fn flush_commits_the_draw_list() {
    let backend = d2d(800, 600);
    let cmds = backend.flush();
    assert_eq!(cmds.as_slice(), &[D2dCmd::EndDraw]);
}

#[test]
fn clear_with_a_gradient_reduces_to_its_first_stop() {
    let backend = d2d(800, 600);
    let paint = Paint::Gradient(
        vec![Color::Green, Color::Blue],
        GradientType::Linear(Point2(0, 0), Point2(10, 0)),
        0,
    );
    let cmds = backend.clear(&paint);
    assert_eq!(cmds.len(), 1);
    match &cmds[0] {
        D2dCmd::Clear { color } => assert_eq!(*color, Vec4(0, 255, 0, 255)),
        _ => panic!("a clear resolves to one native clear"),
    }
}

#[test]
fn gradient_brush_travels_into_the_fill_command() {
    let backend = d2d(800, 600);
    let paint = Paint::Gradient(
        vec![Color::Red, Color::Green, Color::Blue],
        GradientType::Linear(Point2(0, 0), Point2(200, 0)),
        0,
    );
    let cmds = backend.ellipse(Point2(10, 10), 40, &paint);
    match &cmds[0] {
        D2dCmd::FillEllipse { cx, cy, radius_x, radius_y, brush } => {
            assert_eq!((*cx, *cy, *radius_x, *radius_y), (50, 50, 40, 40));
            match brush {
                BrushSpec::LinearGradient { stops, from, to } => {
                    assert_eq!(stops.len(), 3);
                    assert!(stops[0].position < stops[1].position);
                    assert!(stops[1].position < stops[2].position);
                    assert_eq!(stops[2].color, Vec4(0, 0, 255, 255));
                    assert_eq!((from.0, from.1), (0, 0));
                    assert_eq!((to.0, to.1), (200, 0));
                },
                _ => panic!("a gradient paint must give a gradient brush"),
            }
        },
        _ => panic!("an ellipse resolves to one native ellipse fill"),
    }
}

#[test]
fn line_carries_stroke_width_and_cap_style() {
    let backend = d2d(800, 600);
    let cmds = backend.line(Point2(1, 2), Point2(3, 4), 7, &Paint::Solid(Color::Black));
    match &cmds[0] {
        D2dCmd::DrawLine { x1, y1, x2, y2, stroke, style, .. } => {
            assert_eq!((*x1, *y1, *x2, *y2), (1, 2, 3, 4));
            assert_eq!(*stroke, 7);
            assert_eq!(style.start_cap, CapStyle::Round);
            assert_eq!(style.end_cap, CapStyle::Triangle);
        },
        _ => panic!("a line resolves to one native line draw"),
    }
}

#[test]
fn web_rectangle_passes_both_points_straight_through() {
    let (backend, _) = bly::web::create_backend(1, 300, 200);
    let cmds = backend.rectangle(Point2(10, 10), Point2(100, 100), Vec4(255, 0, 0, 255));
    // This backend hands the numbers to the native fill-rect unchanged:
    // no extent arithmetic happens here.
    assert_eq!(
        cmds.as_slice(),
        &[
            WebCmd::SetFillStyle { r: 255, g: 0, b: 0, a: 255 },
            WebCmd::FillRect { x: 10, y: 10, w: 100, h: 100 },
        ],
    );
}

#[test]
fn web_clear_covers_the_full_element_bounds() {
    let (backend, _) = bly::web::create_backend(1, 300, 200);
    let cmds = backend.clear(Vec4(255, 0, 0, 255));
    assert_eq!(
        cmds.as_slice(),
        &[
            WebCmd::SetFillStyle { r: 255, g: 0, b: 0, a: 255 },
            WebCmd::FillRect { x: 0, y: 0, w: 300, h: 200 },
        ],
    );
}

#[test]
fn web_size_gate_updates_the_css_box_only_on_change() {
    let (mut backend, _) = bly::web::create_backend(1, 300, 200);
    let cmds = backend.begin_draw(300, 200);
    assert_eq!(cmds.as_slice(), &[WebCmd::BeginPath]);
    let cmds = backend.begin_draw(400, 300);
    assert_eq!(
        cmds.as_slice(),
        &[WebCmd::SetCssSize { width: 400, height: 300 }, WebCmd::BeginPath],
    );
    let ((w, h), cmds) = backend.get_display_size(400, 300);
    assert_eq!((w, h), (400, 300));
    assert!(cmds.is_empty());
}

#[test]
fn web_unimplemented_primitives_are_explicit() {
    let (backend, _) = bly::web::create_backend(1, 300, 200);
    assert!(matches!(backend.draw_unimplemented(), RenderBatch::Unimplemented));
}

#[test]
fn web_set_rgba_records_the_quadruple() {
    let (mut backend, _) = bly::web::create_backend(1, 300, 200);
    backend.set_rgba(1, 2, 3, 4);
    assert_eq!((backend.r, backend.g, backend.b, backend.a), (1, 2, 3, 4));
}

#[test]
fn gl_backend_frames_clear_and_swap() {
    let (mut backend, _) = bly::wayland::create_wayland_backend(0x2000);
    let cmds = backend.begin_draw();
    assert_eq!(
        cmds.as_slice(),
        &[
            EglCmd::DispatchPending,
            EglCmd::ClearColor { r: 255, g: 255, b: 255, a: 255 },
            EglCmd::ClearColorBuffer,
        ],
    );
    let cmds = backend.flush();
    assert_eq!(cmds.as_slice(), &[EglCmd::SwapBuffers]);
}

#[test]
fn gl_clear_carries_the_callers_channels() {
    let (backend, _) = bly::wayland::create_wayland_backend(0x2000);
    let cmds = backend.clear(Vec4(10, 20, 30, 40));
    assert_eq!(
        cmds.as_slice(),
        &[EglCmd::ClearColor { r: 10, g: 20, b: 30, a: 40 }, EglCmd::ClearColorBuffer],
    );
}

#[test]
fn web_line_applies_the_stroke_width() {
    let (backend, _) = bly::web::create_backend(1, 300, 200);
    let thin = backend.line(Point2(0, 0), Point2(5, 5), 1, Vec4(0, 0, 0, 255));
    let thick = backend.line(Point2(0, 0), Point2(5, 5), 9, Vec4(0, 0, 0, 255));
    assert_eq!(thin[2], WebCmd::SetLineWidth(1));
    assert_eq!(thick[2], WebCmd::SetLineWidth(9));
    assert_ne!(thin, thick);
}

#[test]
fn gl_backend_gaps_are_explicit_stops() {
    let (backend, _) = bly::wayland::create_wayland_backend(0x2000);
    assert_eq!(backend.get_display_size(), SizeResult::Unimplemented);
    assert!(matches!(backend.draw_primitive(), RenderBatch::Unimplemented));
}

#[test]
fn gl_config_requires_es2_window_surfaces() {
    let spec = bly::wayland::egl_config_spec();
    assert_eq!(spec.red_size, 8);
    assert_eq!(spec.green_size, 8);
    assert_eq!(spec.blue_size, 8);
    assert_eq!(spec.depth_size, 24);
    assert!(spec.window_surface);
    assert!(spec.es2);
}

#[test]
fn rasterizer_stub_target_is_fully_unimplemented() {
    let mut stub = WayLandBackend {};
    assert!(matches!(stub.begin_draw(), RenderBatch::Unimplemented));
    assert!(matches!(stub.flush(), RenderBatch::Unimplemented));
    assert_eq!(stub.get_display_size(), SizeResult::Unimplemented);
    assert!(matches!(stub.clear(), RenderBatch::Unimplemented));
    assert!(matches!(stub.draw_primitive(), RenderBatch::Unimplemented));
}

#[test]
fn corefoundation_stub_mixes_noops_and_stops() {
    let mut backend = bly::corefoundation::create_backend();
    assert!(matches!(backend.begin_draw(), RenderBatch::Unimplemented));
    assert!(matches!(backend.flush(), RenderBatch::Unimplemented));
    assert_eq!(backend.get_display_size(), SizeResult::Unimplemented);
    assert!(matches!(backend.clear(Vec4(0, 0, 0, 255)), RenderBatch::NoOp));
    assert!(matches!(backend.draw_rect(0, 0, 10, 10, Vec4(0, 0, 0, 255)), RenderBatch::NoOp));
    assert!(matches!(
        backend.draw_ellipse(0, 0, 5, Vec4(0, 0, 0, 255)),
        RenderBatch::Unimplemented
    ));
    assert!(matches!(
        backend.draw_line(0, 0, 1, 1, 1, Vec4(0, 0, 0, 255)),
        RenderBatch::Unimplemented
    ));
}

#[test]
fn releasing_the_rasterizer_frees_its_context() {
    let (backend, setup) = create_xlib_backend(5, 100, 100);
    assert_eq!(
        setup.as_slice(),
        &[
            CairoCmd::OpenDisplay,
            CairoCmd::CreateSurface { window: 5, width: 100, height: 100 },
            CairoCmd::CreateContext,
        ],
    );
    match backend.release() {
        RenderBatch::Cairo(cmds) => assert_eq!(cmds.as_slice(), &[CairoCmd::DestroyContext]),
        _ => panic!("releasing the rasterizer must go through the rasterizer API"),
    }
}
