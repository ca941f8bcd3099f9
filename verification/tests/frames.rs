use bly::cairo::CairoCmd;
use bly::geometry::Point2;
use bly::color::Color;
use bly::handle::WindowHandle;
use bly::{CanvasGuard, DrawCommand, RenderBatch, SizeProbe, SizeResult, create_canvas};

fn xlib_canvas(width: u32, height: u32) -> bly::Canvas {
    let mut guard = CanvasGuard::default();
    let handle = WindowHandle::Xlib { window: 9 };
    let (canvas, _) = create_canvas(&mut guard, &handle, SizeProbe::Geometry(width, height))
        .expect("a supported platform must initialize");
    canvas
}

#[test]
fn empty_frame_is_begin_then_flush() {
    let mut canvas = xlib_canvas(100, 100);
    let batches = canvas.draw(SizeProbe::Geometry(100, 100), &Vec::new());
    assert_eq!(batches.len(), 2);
    // Unchanged geometry: the frame start recreates nothing.
    match &batches[0] {
        RenderBatch::Cairo(cmds) => assert!(cmds.is_empty()),
        _ => panic!("the rasterizer frame start must be a rasterizer batch"),
    }
    match &batches[1] {
        RenderBatch::Cairo(cmds) => assert_eq!(cmds.as_slice(), &[CairoCmd::FlushDisplay]),
        _ => panic!("the rasterizer frame end must be a rasterizer batch"),
    }
    assert!(!canvas.painter.frame_open);
}

#[test]
fn empty_frame_leaves_the_canvas_usable() {
    let mut canvas = xlib_canvas(100, 100);
    let _ = canvas.draw(SizeProbe::Geometry(100, 100), &Vec::new());
    // A second frame goes through unchanged.
    let batches = canvas.draw(SizeProbe::Geometry(100, 100), &Vec::new());
    assert_eq!(batches.len(), 2);
    assert!(!canvas.painter.frame_open);
}

#[test]
fn resize_between_frames_recreates_the_surface() {
    let mut canvas = xlib_canvas(100, 100);
    let _ = canvas.draw(SizeProbe::Geometry(100, 100), &Vec::new());
    // The window was resized between the two frames.
    let batches = canvas.draw(SizeProbe::Geometry(200, 150), &Vec::new());
    match &batches[0] {
        RenderBatch::Cairo(cmds) => {
            assert_eq!(
                cmds.as_slice(),
                &[
                    CairoCmd::CreateSurface { window: 9, width: 200, height: 150 },
                    CairoCmd::CreateContext,
                ],
            );
        },
        _ => panic!("the rasterizer frame start must be a rasterizer batch"),
    }
    // The size observed inside the second frame is the new one.
    let (size, _) = canvas.painter.get_size(SizeProbe::Geometry(200, 150));
    assert_eq!(size, SizeResult::Size(200, 150));
}

#[test]
fn second_resize_to_same_size_recreates_nothing() {
    let mut canvas = xlib_canvas(100, 100);
    let _ = canvas.draw(SizeProbe::Geometry(200, 150), &Vec::new());
    let batches = canvas.draw(SizeProbe::Geometry(200, 150), &Vec::new());
    match &batches[0] {
        RenderBatch::Cairo(cmds) => assert!(cmds.is_empty()),
        _ => panic!("the rasterizer frame start must be a rasterizer batch"),
    }
}

#[test]
fn clear_fills_the_whole_surface_with_the_solid_color() {
    let mut canvas = xlib_canvas(320, 240);
    let batches = canvas.draw(
        SizeProbe::Geometry(320, 240),
        &vec![DrawCommand::Clear(Color::Red)],
    );
    assert_eq!(batches.len(), 3);
    match &batches[1] {
        RenderBatch::Cairo(cmds) => {
            assert_eq!(
                cmds.as_slice(),
                &[
                    CairoCmd::SetSourceRgb { r: 255, g: 0, b: 0 },
                    CairoCmd::Rectangle { x: 0, y: 0, w: 320, h: 240 },
                    CairoCmd::Fill,
                ],
            );
        },
        _ => panic!("a rasterizer clear must be a rasterizer batch"),
    }
}

#[test]
fn second_clear_overwrites_the_first_over_the_same_region() {
    let mut canvas = xlib_canvas(320, 240);
    let batches = canvas.draw(
        SizeProbe::Geometry(320, 240),
        &vec![DrawCommand::Clear(Color::Red), DrawCommand::Clear(Color::Blue)],
    );
    let first = match &batches[1] {
        RenderBatch::Cairo(cmds) => cmds.clone(),
        _ => panic!("a rasterizer clear must be a rasterizer batch"),
    };
    let second = match &batches[2] {
        RenderBatch::Cairo(cmds) => cmds.clone(),
        _ => panic!("a rasterizer clear must be a rasterizer batch"),
    };
    // Identical full region, opaque solid source of the later color only.
    assert_eq!(first[1], second[1]);
    assert_eq!(second[0], CairoCmd::SetSourceRgb { r: 0, g: 0, b: 255 });
    assert_eq!(second[2], CairoCmd::Fill);
}

#[test]
fn frame_calls_are_resolved_in_issue_order() {
    let mut canvas = xlib_canvas(100, 100);
    let calls = vec![
        DrawCommand::Clear(Color::White),
        DrawCommand::Rectangle(Point2(10, 10), Point2(20, 20), Color::Red),
        DrawCommand::Line(Point2(0, 0), Point2(50, 50), 2, Color::Black),
    ];
    let batches = canvas.draw(SizeProbe::Geometry(100, 100), &calls);
    assert_eq!(batches.len(), 5);
    match &batches[2] {
        RenderBatch::Cairo(cmds) => {
            assert_eq!(cmds[1], CairoCmd::Rectangle { x: 10, y: 10, w: 20, h: 20 });
        },
        _ => panic!("a rasterizer rectangle must be a rasterizer batch"),
    }
    match &batches[3] {
        RenderBatch::Cairo(cmds) => {
            assert_eq!(cmds[0], CairoCmd::SetLineWidth(2));
            assert_eq!(cmds[3], CairoCmd::LineTo { x: 50, y: 50 });
        },
        _ => panic!("a rasterizer line must be a rasterizer batch"),
    }
}

#[test]
fn rounded_rectangle_arcs_run_clockwise_from_top_right() {
    let mut canvas = xlib_canvas(100, 100);
    let calls = vec![DrawCommand::RoundedRectangle(
        Point2(10, 20),
        Point2(100, 60),
        5,
        Color::Gray,
    )];
    let batches = canvas.draw(SizeProbe::Geometry(100, 100), &calls);
    match &batches[1] {
        RenderBatch::Cairo(cmds) => {
            assert_eq!(cmds[1], CairoCmd::NewSubPath);
            // Top-right corner first.
            assert_eq!(
                cmds[2],
                CairoCmd::Arc { cx: 105, cy: 25, radius: 5, start_deg: -90, end_deg: 0 },
            );
            // Then bottom-right.
            assert_eq!(
                cmds[3],
                CairoCmd::Arc { cx: 105, cy: 75, radius: 5, start_deg: 0, end_deg: 90 },
            );
            // Then bottom-left.
            assert_eq!(
                cmds[4],
                CairoCmd::Arc { cx: 15, cy: 75, radius: 5, start_deg: 90, end_deg: 180 },
            );
            // Then top-left, and the path closes.
            assert_eq!(
                cmds[5],
                CairoCmd::Arc { cx: 15, cy: 25, radius: 5, start_deg: 180, end_deg: 270 },
            );
            assert_eq!(cmds[6], CairoCmd::ClosePath);
            assert_eq!(cmds[7], CairoCmd::FillPreserve);
        },
        _ => panic!("a rasterizer rounded rectangle must be a rasterizer batch"),
    }
}

#[test]
fn ellipse_center_sits_one_radius_into_the_box() {
    let mut canvas = xlib_canvas(100, 100);
    let calls = vec![DrawCommand::Ellipse(Point2(10, 20), 15, Color::Green)];
    let batches = canvas.draw(SizeProbe::Geometry(100, 100), &calls);
    match &batches[1] {
        RenderBatch::Cairo(cmds) => {
            assert_eq!(
                cmds[1],
                CairoCmd::Arc { cx: 25, cy: 35, radius: 15, start_deg: 0, end_deg: 360 },
            );
        },
        _ => panic!("a rasterizer ellipse must be a rasterizer batch"),
    }
}
