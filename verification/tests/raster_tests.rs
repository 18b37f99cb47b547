use clod::canvas::SimpleCanvas;
use clod::color::Color;
use clod::color::Rgb8;
use clod::geom::Vec2i;
use clod::geom::Vec2u;
use clod::style::Circle;

#[test]
fn solid_line_walks_the_grid() {
    let mut canvas = SimpleCanvas::from_size(Vec2u::new(10, 10));
    canvas.line(Vec2i::new(0, 0), Vec2i::new(3, 3));
    for k in 0..4i32 {
        assert_eq!(canvas.at(Vec2i::new(k, k)), Some(Color::White));
    }
    assert_eq!(canvas.at(Vec2i::new(4, 4)), None);
    assert_eq!(canvas.at(Vec2i::new(0, 1)), None);
}

#[test]
fn solid_line_skips_negative_points() {
    let mut canvas = SimpleCanvas::from_size(Vec2u::new(10, 10));
    canvas.line_with_color(Vec2i::new(-2, -2), Vec2i::new(2, 2), Color::Blue);
    assert_eq!(canvas.at(Vec2i::new(0, 0)), Some(Color::Blue));
    assert_eq!(canvas.at(Vec2i::new(1, 1)), Some(Color::Blue));
    assert_eq!(canvas.at(Vec2i::new(2, 2)), Some(Color::Blue));
}

#[test]
fn aa_horizontal_line_is_pure_white() {
    // Endpoints are quarter-pixels: the line from pixel (0,0) to pixel
    // (10,0) on a black background paints every traversed pixel pure
    // white, since an axis-aligned line covers each fully.
    let mut canvas = SimpleCanvas::from_size(Vec2u::new(16, 8));
    canvas.set_background_color(Some(Color::Rgb { r: 0, g: 0, b: 0 }));
    canvas.aa_line(Vec2i::new(0, 0), Vec2i::new(40, 0));
    for x in 0..=10i32 {
        assert_eq!(
            canvas.at(Vec2i::new(x, 0)),
            Some(Color::Rgb { r: 255, g: 255, b: 255 })
        );
    }
    assert_eq!(canvas.at(Vec2i::new(11, 0)), None);
    assert_eq!(canvas.at(Vec2i::new(0, 1)), None);
}

#[test]
fn aa_vertical_line_is_pure_white() {
    let mut canvas = SimpleCanvas::from_size(Vec2u::new(8, 8));
    canvas.aa_line(Vec2i::new(12, 4), Vec2i::new(12, 24));
    for y in 1..=6i32 {
        assert_eq!(
            canvas.at(Vec2i::new(3, y)),
            Some(Color::Rgb { r: 255, g: 255, b: 255 })
        );
    }
}

#[test]
fn aa_shallow_line_blends_half_coverage() {
    // A line of slope 1/2 splits every odd column between two pixels at
    // exactly half coverage each: (0*(160-80) + 255*80) / 160 = 127.
    let mut canvas = SimpleCanvas::from_size(Vec2u::new(16, 8));
    canvas.aa_line(Vec2i::new(0, 0), Vec2i::new(40, 20));
    assert_eq!(canvas.at(Vec2i::new(0, 0)), Some(Color::Rgb { r: 255, g: 255, b: 255 }));
    assert_eq!(canvas.at(Vec2i::new(1, 0)), Some(Color::Rgb { r: 127, g: 127, b: 127 }));
    assert_eq!(canvas.at(Vec2i::new(1, 1)), Some(Color::Rgb { r: 127, g: 127, b: 127 }));
    assert_eq!(canvas.at(Vec2i::new(2, 1)), Some(Color::Rgb { r: 255, g: 255, b: 255 }));
}

#[test]
fn aa_line_at_fractional_height_splits_rows() {
    // A horizontal line half a pixel below the pixel grid covers the two
    // adjacent rows half each.
    let mut canvas = SimpleCanvas::from_size(Vec2u::new(16, 8));
    canvas.aa_line(Vec2i::new(0, 2), Vec2i::new(40, 2));
    for x in 0..=10i32 {
        assert_eq!(canvas.at(Vec2i::new(x, 0)), Some(Color::Rgb { r: 127, g: 127, b: 127 }));
        assert_eq!(canvas.at(Vec2i::new(x, 1)), Some(Color::Rgb { r: 127, g: 127, b: 127 }));
    }
}

#[test]
fn aa_line_custom_color() {
    let mut canvas = SimpleCanvas::from_size(Vec2u::new(8, 8));
    canvas.aa_line_with_color(Vec2i::new(0, 8), Vec2i::new(20, 8), Rgb8::new(200, 100, 50));
    assert_eq!(canvas.at(Vec2i::new(2, 2)), Some(Color::Rgb { r: 200, g: 100, b: 50 }));
}

#[test]
fn circle_band_pixels_fully_painted() {
    // Center pixel (25, 25), radius 10 pixels, stroke 1 pixel each way:
    // the band reaches from 9 to 11 pixels. The pixel 10 to the right of
    // the center has all four corners inside the band, so it carries the
    // full stroke color; the hole and far outside stay untouched.
    let mut canvas = SimpleCanvas::from_size(Vec2u::new(60, 30));
    let circle = Circle::with_radius(40).stroke(4).with_stroke_color(Rgb8::new(250, 10, 20));
    canvas.aa_circle(Vec2i::new(100, 100), circle);
    assert_eq!(
        canvas.at(Vec2i::new(35, 25)),
        Some(Color::Rgb { r: 250, g: 10, b: 20 })
    );
    assert_eq!(
        canvas.at(Vec2i::new(15, 25)),
        Some(Color::Rgb { r: 250, g: 10, b: 20 })
    );
    assert_eq!(
        canvas.at(Vec2i::new(25, 35)),
        Some(Color::Rgb { r: 250, g: 10, b: 20 })
    );
    // Strictly inside the hole.
    assert_eq!(canvas.at(Vec2i::new(25, 25)), None);
    assert_eq!(canvas.at(Vec2i::new(26, 25)), None);
    // Strictly outside the outer radius.
    assert_eq!(canvas.at(Vec2i::new(40, 25)), None);
    assert_eq!(canvas.at(Vec2i::new(50, 25)), None);
}

#[test]
fn unset_stroke_defaults_to_half_pixel() {
    // Each unset stroke width defaults to half a pixel (two quarters),
    // independently of the other.
    assert_eq!(Circle::with_radius(8).inner_stroke_width(), 2);
    assert_eq!(Circle::with_radius(8).outer_stroke_width(), 2);
    assert_eq!(Circle::with_radius(8).with_outer_stroke(4).inner_stroke_width(), 2);
    assert_eq!(Circle::with_radius(8).with_outer_stroke(4).outer_stroke_width(), 4);
    assert_eq!(Circle::with_radius(8).with_inner_stroke(4).outer_stroke_width(), 2);
    assert_eq!(Circle::with_radius(8).with_inner_stroke(4).inner_stroke_width(), 4);
    assert_eq!(Circle::with_radius(8).stroke(0).inner_stroke_width(), 0);
    assert_eq!(Circle::with_radius(8).stroke(0).outer_stroke_width(), 0);

    // With only the outer stroke set, the band still reaches half a
    // pixel inward: radius 10px, outer 1px gives the band [9.5, 11], and
    // the pixel 10 to the right of the center (corner distances squared
    // 1448 and 1768 against [1444, 1936]) is fully painted. With an
    // inner default of zero the band would start at 1600 and leave that
    // pixel partial.
    let mut canvas = SimpleCanvas::from_size(Vec2u::new(60, 30));
    let circle = Circle::with_radius(40).with_outer_stroke(4).with_stroke_color(Rgb8::new(9, 8, 7));
    canvas.aa_circle(Vec2i::new(100, 100), circle);
    assert_eq!(canvas.at(Vec2i::new(35, 25)), Some(Color::Rgb { r: 9, g: 8, b: 7 }));
}

#[test]
fn circle_zero_radius_is_noop() {
    let mut canvas = SimpleCanvas::from_size(Vec2u::new(10, 10));
    canvas.aa_circle(Vec2i::new(20, 20), Circle::with_radius(0));
    for x in 0..10i32 {
        for y in 0..20i32 {
            assert_eq!(canvas.at(Vec2i::new(x, y)), None);
        }
    }
}

#[test]
fn circle_half_pixel_radius_paints_center() {
    // Radius half a pixel with default strokes: the band covers squared
    // distances up to one pixel, so the center pixel's corners (each at
    // squared distance 8 in quarter units, inside [0, 16]) are all in
    // the band and the pixel is painted fully.
    let mut canvas = SimpleCanvas::from_size(Vec2u::new(10, 10));
    canvas.aa_circle(Vec2i::new(20, 20), Circle::with_radius(2));
    assert_eq!(
        canvas.at(Vec2i::new(5, 5)),
        Some(Color::Rgb { r: 255, g: 255, b: 255 })
    );
}

#[test]
fn circle_inner_equals_outer_band_is_radius_only() {
    // Zero-width band: only sample points exactly on the radius count.
    // A pixel whose corners straddle the radius is a boundary pixel with
    // zero in-band supersamples, blending to the background.
    let mut canvas = SimpleCanvas::from_size(Vec2u::new(40, 20));
    canvas.set_background_color(Some(Color::Rgb { r: 0, g: 0, b: 0 }));
    let circle = Circle::with_radius(41).stroke(0);
    canvas.aa_circle(Vec2i::new(80, 80), circle);
    // No pixel can be fully covered by a zero-width band off-grid.
    for x in 0..40i32 {
        for y in 0..40i32 {
            let c = canvas.at(Vec2i::new(x, y));
            assert_ne!(c, Some(Color::Rgb { r: 255, g: 255, b: 255 }));
        }
    }
}

#[test]
fn filled_circle_covers_center() {
    let mut canvas = SimpleCanvas::from_size(Vec2u::new(30, 15));
    let circle = Circle::with_radius(20).stroke(2).fill();
    canvas.aa_circle(Vec2i::new(60, 60), circle);
    // The filled disc paints the center pixel fully.
    assert_eq!(
        canvas.at(Vec2i::new(15, 15)),
        Some(Color::Rgb { r: 255, g: 255, b: 255 })
    );
}
