use std::cell::Cell;

use paint::canvas::encode;
use paint::geometry::{MAX, MID};
use paint::{Canvas, Color, Layer, Position, Projection, Size, SplitLayer};

#[derive(Clone, Copy)]
struct Solid(Color);

impl Layer for Solid {
    fn sample(&self, projection: Projection) -> Color {
        self.draw(projection)
    }

    fn draw(&self, _projection: Projection) -> Color {
        self.0
    }
}

fn text(bytes: Vec<u8>) -> String {
    String::from_utf8(bytes).unwrap()
}

fn green() -> Color {
    Color::rgb(0, 200, 0)
}

#[test]
fn rgb_channels_round_trip_for_every_byte() {
    for v in 0..=255u32 {
        let v = v as u8;
        let c = Color::rgb(v, 255 - v, v / 2);
        assert_eq!(c.r(), v);
        assert_eq!(c.g(), 255 - v);
        assert_eq!(c.b(), v / 2);
    }
    let white = Color::rgb(255, 255, 255);
    assert_eq!((white.r(), white.g(), white.b()), (255, 255, 255));
}

#[test]
fn rgba_keeps_channels_whatever_the_alpha() {
    let c = Color::rgba(12, 34, 56, 0);
    assert_eq!((c.r(), c.g(), c.b()), (12, 34, 56));
}

#[test]
fn transparent_reads_as_saturated_white() {
    let c = Color::transparent();
    assert_eq!((c.r(), c.g(), c.b()), (255, 255, 255));
}

#[test]
fn transparent_over_background_scales_by_its_alpha() {
    // rgb gives alpha 255/256, so the green channel drops by one step.
    let c = Color::transparent().over(green());
    assert_eq!((c.r(), c.g(), c.b()), (0, 199, 0));
}

#[test]
fn over_blends_source_and_destination() {
    let c = Color::rgba(10, 20, 30, 50).over(Color::rgba(100, 100, 100, 200));
    assert_eq!((c.r(), c.g(), c.b()), (64, 66, 68));
    let d = Color::rgba(100, 100, 100, 200).over(Color::rgba(10, 20, 30, 50));
    assert_eq!((d.r(), d.g(), d.b()), (78, 78, 79));
}

#[test]
fn over_alpha_is_the_larger_alpha() {
    // The source alpha is below the destination's: the result keeps 200.
    let low_over_high = Color::rgba(10, 20, 30, 50).over(Color::rgba(100, 100, 100, 200));
    let seen = Color::transparent().over(low_over_high);
    assert_eq!((seen.r(), seen.g(), seen.b()), (50, 52, 53));
    let high_over_low = Color::rgba(100, 100, 100, 200).over(Color::rgba(10, 20, 30, 50));
    let seen = Color::transparent().over(high_over_low);
    assert_eq!((seen.r(), seen.g(), seen.b()), (61, 61, 62));
}

#[test]
fn over_with_opaque_black_source() {
    let c = Color::rgb(0, 0, 0).over(green());
    assert_eq!((c.r(), c.g(), c.b()), (0, 0, 0));
    assert!(Color::rgb(1, 2, 3) == Color::rgb(1, 2, 3));
    assert!(Color::rgb(1, 2, 3) != Color::rgba(1, 2, 3, 254));
}

#[test]
fn projection_maps_the_origin_to_zero() {
    let p = Projection::new(&Size::new(10, 20), Position::new(0, 0));
    assert_eq!((p.x, p.y), (0, 0));
}

#[test]
fn projection_scales_inside_the_grid() {
    let p = Projection::new(&Size::new(2, 4), Position::new(1, 3));
    assert_eq!(p.x, 2147483647);
    assert_eq!(p.y, 3221225471);
    let last = Projection::new(&Size::new(7, 7), Position::new(6, 6));
    assert!(last.x < MAX && last.y < MAX);
}

#[test]
fn projection_saturates_far_outside_the_grid() {
    let p = Projection::new(&Size::new(10, 10), Position::new(1000, u32::MAX));
    assert_eq!((p.x, p.y), (MAX, MAX));
    let edge = Projection::new(&Size::new(10, 10), Position::new(10, 11));
    assert_eq!((edge.x, edge.y), (MAX, MAX));
}

#[test]
fn projection_on_an_empty_grid() {
    let p = Projection::new(&Size::new(0, 0), Position::new(0, 5));
    assert_eq!((p.x, p.y), (0, MAX));
}

fn split_at(y: u32) -> (bool, Projection) {
    let seen = Cell::new(Projection { x: 0, y: 0 });
    let second = Cell::new(false);
    let projection = Projection { x: 77, y };
    let c = projection.proxy_split(
        |p| {
            seen.set(p);
            Color::rgb(1, 1, 1)
        },
        |p| {
            seen.set(p);
            second.set(true);
            Color::rgb(2, 2, 2)
        },
    );
    assert_eq!(c.r(), if second.get() { 2 } else { 1 });
    (second.get(), seen.get())
}

#[test]
fn split_switches_child_just_above_the_midpoint() {
    let (second, p) = split_at(MID);
    assert!(!second);
    assert_eq!((p.x, p.y), (77, MAX - 1));
    let (second, p) = split_at(MID + 1);
    assert!(second);
    assert_eq!((p.x, p.y), (77, 2));
}

#[test]
fn split_halves_span_the_full_range() {
    let (second, p) = split_at(0);
    assert!(!second);
    assert_eq!(p.y, 0);
    let (second, p) = split_at(MAX);
    assert!(second);
    assert_eq!(p.y, MAX);
    let (second, p) = split_at(1000);
    assert!(!second);
    assert_eq!(p.y, 2000);
}

#[test]
fn split_layer_routes_rows() {
    let layer = SplitLayer::new(Solid(Color::rgb(255, 255, 255)), Solid(Color::rgb(0, 0, 0)));
    let top = layer.draw(Projection { x: 5, y: 0 });
    assert_eq!(top.r(), 255);
    let bottom = layer.draw(Projection { x: 5, y: MAX });
    assert_eq!(bottom.r(), 0);
    let canvas = Canvas::new(green(), Size::new(1, 4));
    let out = text(canvas.render(layer));
    assert_eq!(out, "P3\n1 4\n255\n254 254 254\n254 254 254\n254 254 254\n0 0 0\n");
}

#[test]
fn render_white_over_green() {
    let canvas = Canvas::new(green(), Size::new(2, 2));
    let out = text(canvas.render(Solid(Color::rgb(255, 255, 255))));
    assert_eq!(out, "P3\n2 2\n255\n254 254 254\n254 254 254\n254 254 254\n254 254 254\n");
}

#[test]
fn render_transparent_over_background() {
    let canvas = Canvas::new(green(), Size::new(1, 1));
    let out = text(canvas.render(Solid(Color::transparent())));
    assert_eq!(out, "P3\n1 1\n255\n0 199 0\n");
}

#[test]
fn render_twice_gives_identical_bytes() {
    let canvas = Canvas::new(green(), Size::new(3, 2));
    let layer = SplitLayer::new(Solid(Color::rgba(9, 99, 199, 128)), Solid(Color::transparent()));
    let first = canvas.render(SplitLayer::new(layer.first, layer.second));
    let second = canvas.render(layer);
    assert_eq!(first, second);
}

#[test]
fn render_empty_canvas_is_header_only() {
    let canvas = Canvas::new(green(), Size::new(0, 3));
    assert_eq!(text(canvas.render(Solid(Color::transparent()))), "P3\n0 3\n255\n");
}

#[test]
fn paint_composites_in_row_major_order() {
    let canvas = Canvas::new(Color::rgb(0, 0, 0), Size::new(2, 3));
    let pixels = canvas.paint(&Solid(Color::rgb(100, 150, 200)));
    assert_eq!(pixels.len(), 6);
    for p in pixels.iter() {
        assert!(*p == Color::rgb(100, 150, 200).over(Color::rgb(0, 0, 0)));
    }
}

#[test]
fn encode_writes_multi_digit_values() {
    let pixels = vec![Color::rgb(7, 42, 255), Color::rgba(100, 0, 10, 3)];
    let out = text(encode(&Size::new(260, 520), &pixels));
    assert_eq!(out, "P3\n260 520\n255\n7 42 255\n100 0 10\n");
}

#[test]
fn size_keeps_its_dimensions() {
    let s = Size::new(260, 520);
    assert_eq!((s.get_width(), s.get_height()), (260, 520));
}

#[test]
fn distance_squared_is_exact() {
    let a = Position::new(3, 0);
    let b = Position::new(0, 4);
    assert_eq!(a.distance_squared(b), 25);
    assert_eq!(b.distance_squared(a), 25);
    let far = Position::new(u32::MAX, u32::MAX).distance_squared(Position::new(0, 0));
    assert_eq!(far, 2 * (u32::MAX as u128) * (u32::MAX as u128));
}

#[test]
fn nested_split_layers_divide_into_quarters() {
    let top = SplitLayer::new(Solid(Color::rgb(255, 0, 0)), Solid(Color::rgb(0, 255, 0)));
    let bottom = SplitLayer::new(Solid(Color::rgb(0, 0, 255)), Solid(Color::rgb(255, 255, 255)));
    let canvas = Canvas::new(Color::rgb(0, 0, 0), Size::new(1, 8));
    let out = text(canvas.render(SplitLayer::new(top, bottom)));
    let expected = "P3\n1 8\n255\n\
        254 0 0\n254 0 0\n254 0 0\n\
        0 254 0\n0 254 0\n\
        0 0 254\n\
        254 254 254\n254 254 254\n";
    assert_eq!(out, expected);
}
