use bly::color::{BrushSpec, Color, GradientType, Paint, Vec4, gradient_stops, resolve_brush};
use bly::geometry::Point2;

#[test]
fn rgba_roundtrip_is_identity() {
    let v = Vec4::from(Color::Rgba(10, 20, 30, 40));
    assert_eq!(v, Vec4(10, 20, 30, 40));
}

#[test]
fn rgba_roundtrip_keeps_out_of_range_channels() {
    // Channels are caller-supplied and not range-checked by this layer.
    let v = Vec4::from(Color::Rgba(999, 0, 123456, 300));
    assert_eq!(v, Vec4(999, 0, 123456, 300));
}

#[test]
fn named_colors_map_to_fixed_vectors() {
    assert_eq!(Vec4::from(Color::White), Vec4(255, 255, 255, 255));
    assert_eq!(Vec4::from(Color::WhiteGray), Vec4(240, 240, 240, 255));
    assert_eq!(Vec4::from(Color::Gray), Vec4(128, 128, 128, 255));
    assert_eq!(Vec4::from(Color::Black), Vec4(0, 0, 0, 255));
    assert_eq!(Vec4::from(Color::Red), Vec4(255, 0, 0, 255));
    assert_eq!(Vec4::from(Color::Green), Vec4(0, 255, 0, 255));
    assert_eq!(Vec4::from(Color::Blue), Vec4(0, 0, 255, 255));
}

#[test]
fn named_colors_are_stable_across_calls() {
    assert_eq!(Vec4::from(Color::Red), Vec4::from(Color::Red));
    assert_eq!(Vec4::from(Color::Gray), Vec4::from(Color::Gray));
}

#[test]
fn gradient_stops_keep_order_and_increase() {
    let stops = gradient_stops(&vec![Color::Red, Color::Green, Color::Blue]);
    assert_eq!(stops.len(), 3);
    assert_eq!(stops[0].color, Vec4(255, 0, 0, 255));
    assert_eq!(stops[1].color, Vec4(0, 255, 0, 255));
    assert_eq!(stops[2].color, Vec4(0, 0, 255, 255));
    assert!(stops[0].position < stops[1].position);
    assert!(stops[1].position < stops[2].position);
}

#[test]
fn gradient_stops_of_empty_list_is_empty() {
    let stops = gradient_stops(&Vec::new());
    assert!(stops.is_empty());
}

#[test]
fn resolve_brush_solid() {
    let b = resolve_brush(&Paint::Solid(Color::Blue));
    match b {
        BrushSpec::Solid(v) => assert_eq!(v, Vec4(0, 0, 255, 255)),
        _ => panic!("expected a solid brush"),
    }
}

#[test]
fn resolve_brush_gradient_keeps_stops_and_anchors() {
    let paint = Paint::Gradient(
        vec![Color::Red, Color::Green, Color::Blue],
        GradientType::Linear(Point2::new(0, 0), Point2::new(100, 50)),
        0,
    );
    let b = resolve_brush(&paint);
    match b {
        BrushSpec::LinearGradient { stops, from, to } => {
            assert_eq!(stops.len(), 3);
            assert_eq!(stops[0].color, Vec4(255, 0, 0, 255));
            assert_eq!(stops[1].color, Vec4(0, 255, 0, 255));
            assert_eq!(stops[2].color, Vec4(0, 0, 255, 255));
            assert!(stops[0].position < stops[1].position);
            assert!(stops[1].position < stops[2].position);
            assert_eq!(from.0, 0);
            assert_eq!(from.1, 0);
            assert_eq!(to.0, 100);
            assert_eq!(to.1, 50);
        },
        _ => panic!("expected a linear-gradient brush"),
    }
}

#[test]
fn points_carry_their_coordinates() {
    let p2 = Point2::new(1i64, 2i64);
    assert_eq!(p2.0, 1);
    assert_eq!(p2.1, 2);
    let p3 = bly::Point3::new(1i64, 2i64, 3i64);
    assert_eq!((p3.0, p3.1, p3.2), (1, 2, 3));
    let p4 = bly::Point4::new(1i64, 2i64, 3i64, 4i64);
    assert_eq!((p4.0, p4.1, p4.2, p4.3), (1, 2, 3, 4));
}
