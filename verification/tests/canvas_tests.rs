use clod::canvas::SimpleCanvas;
use clod::cell::Cell;
use clod::color::CellStyle;
use clod::color::Color;
use clod::geom::Vec2i;
use clod::geom::Vec2u;
use clod::style::PrintStyle;
use clod::style::StyledPrint;

#[test]
fn draw_then_read_back() {
    let mut canvas = SimpleCanvas::from_size(Vec2u::new(10, 10));
    for y in 0..20i32 {
        let p = Vec2i::new(3, y);
        canvas.point_with_color(p, Color::Red);
        assert_eq!(canvas.at(p), Some(Color::Red));
        canvas.erase(p);
        assert_eq!(canvas.at(p), None);
    }
}

#[test]
fn out_of_bounds_draw_is_noop() {
    let mut canvas = SimpleCanvas::from_size(Vec2u::new(4, 4));
    canvas.point_with_color(Vec2i::new(-1, 0), Color::Red);
    canvas.point_with_color(Vec2i::new(0, -1), Color::Red);
    canvas.point_with_color(Vec2i::new(4, 0), Color::Red);
    canvas.point_with_color(Vec2i::new(0, 8), Color::Red);
    assert_eq!(canvas.at(Vec2i::new(-1, 0)), None);
    assert_eq!(canvas.at(Vec2i::new(4, 0)), None);
    for x in 0..4i32 {
        for y in 0..8i32 {
            assert_eq!(canvas.at(Vec2i::new(x, y)), None);
        }
    }
}

#[test]
fn sibling_sub_pixels_are_independent() {
    let mut canvas = SimpleCanvas::from_size(Vec2u::new(8, 8));
    // (x, 2k) and (x, 2k+1) land in the same cell but stay independent.
    canvas.draw(Vec2u::new(2, 4), Some(Color::Red));
    canvas.draw(Vec2u::new(2, 5), Some(Color::Blue));
    assert_eq!(canvas.color_at(Vec2u::new(2, 4)), Some(Color::Red));
    assert_eq!(canvas.color_at(Vec2u::new(2, 5)), Some(Color::Blue));
    canvas.draw(Vec2u::new(2, 4), Some(Color::Green));
    assert_eq!(canvas.color_at(Vec2u::new(2, 5)), Some(Color::Blue));
    canvas.draw(Vec2u::new(2, 4), None);
    assert_eq!(canvas.color_at(Vec2u::new(2, 4)), None);
    assert_eq!(canvas.color_at(Vec2u::new(2, 5)), Some(Color::Blue));
    canvas.draw(Vec2u::new(2, 5), None);
    assert_eq!(canvas.color_at(Vec2u::new(2, 5)), None);
    // Both sub-pixels live in cell (2, 2).
    let cell = canvas.cell_at(Vec2u::new(2, 2)).unwrap();
    assert_eq!(cell.c, ' ');
}

#[test]
fn half_block_transitions() {
    let mut cell = Cell { c: ' ', style: CellStyle::new_empty() };
    cell.set_top(Some(Color::Red));
    assert_eq!(cell.c, clod::cell::UPPER_HALF);
    assert_eq!(cell.at_top(), Some(Color::Red));
    assert_eq!(cell.at_bottom(), None);
    cell.set_bottom(Some(Color::Blue));
    assert_eq!(cell.c, clod::cell::UPPER_HALF);
    assert_eq!(cell.at_top(), Some(Color::Red));
    assert_eq!(cell.at_bottom(), Some(Color::Blue));
    cell.set_top(Some(Color::Green));
    assert_eq!(cell.at_top(), Some(Color::Green));
    assert_eq!(cell.at_bottom(), Some(Color::Blue));
    cell.unset_top();
    assert_eq!(cell.c, clod::cell::LOWER_HALF);
    assert_eq!(cell.at_top(), None);
    assert_eq!(cell.at_bottom(), Some(Color::Blue));
    cell.unset_bottom();
    assert_eq!(cell.c, ' ');
    assert_eq!(cell.at_top(), None);
    assert_eq!(cell.at_bottom(), None);
}

#[test]
fn full_block_split_keeps_other_half() {
    let mut cell = Cell {
        c: clod::cell::FULL_BLOCK,
        style: CellStyle {
            foreground_color: Some(Color::White),
            background_color: None,
            underline_color: None,
            attributes: clod::color::Attributes::none(),
        },
    };
    cell.set_top(Some(Color::Red));
    assert_eq!(cell.at_top(), Some(Color::Red));
    assert_eq!(cell.at_bottom(), Some(Color::White));
    let mut other = Cell {
        c: clod::cell::FULL_BLOCK,
        style: CellStyle {
            foreground_color: Some(Color::White),
            background_color: None,
            underline_color: None,
            attributes: clod::color::Attributes::none(),
        },
    };
    other.set_bottom(Some(Color::Blue));
    assert_eq!(other.at_top(), Some(Color::White));
    assert_eq!(other.at_bottom(), Some(Color::Blue));
}

#[test]
fn resize_changes_pixel_size() {
    let mut canvas = SimpleCanvas::from_size(Vec2u::new(10, 10));
    assert_eq!(canvas.size(), Vec2u::new(10, 20));
    canvas.resize(Vec2u::new(5, 6));
    assert_eq!(canvas.size(), Vec2u::new(5, 12));
}

#[test]
fn print_centered_on_middle_row() {
    let mut canvas = SimpleCanvas::from_size(Vec2u::new(10, 20));
    canvas.print(StyledPrint::from("Hi"));
    // The box is centered on the anchor that the alignment formula
    // resolves for a 10x20-cell canvas: the content sits on the single
    // middle row, two columns just left of center.
    let h = canvas.cell_at(Vec2u::new(3, 9)).unwrap();
    let i = canvas.cell_at(Vec2u::new(4, 9)).unwrap();
    assert_eq!(h.c, 'H');
    assert_eq!(i.c, 'i');
    assert_eq!(h.style, CellStyle::new_empty());
    for x in 0..10u16 {
        for y in 0..20u16 {
            if !(y == 9 && (x == 3 || x == 4)) {
                assert_eq!(canvas.cell_at(Vec2u::new(x, y)).unwrap().c, ' ');
            }
        }
    }
}

#[test]
fn print_wide_glyph_counts_two_columns() {
    // A two-column CJK glyph shifts the centered box one cell left
    // compared to a one-column glyph.
    let mut canvas = SimpleCanvas::from_size(Vec2u::new(10, 20));
    canvas.print(StyledPrint::from("\u{4f60}"));
    assert_eq!(canvas.cell_at(Vec2u::new(3, 9)).unwrap().c, '\u{4f60}');
    let mut canvas2 = SimpleCanvas::from_size(Vec2u::new(10, 20));
    canvas2.print(StyledPrint::from("a"));
    assert_eq!(canvas2.cell_at(Vec2u::new(4, 9)).unwrap().c, 'a');
}

#[test]
fn print_carries_content_style() {
    let mut canvas = SimpleCanvas::from_size(Vec2u::new(10, 20));
    let style = PrintStyle::default()
        .with(Color::Red)
        .on(Color::Blue)
        .attribute(clod::color::Attribute::Bold);
    canvas.print(style.apply("Hi"));
    let cell = canvas.cell_at(Vec2u::new(3, 9)).unwrap();
    assert_eq!(cell.style.foreground_color, Some(Color::Red));
    assert_eq!(cell.style.background_color, Some(Color::Blue));
    assert!(cell.style.attributes.has(clod::color::Attribute::Bold));
}

#[test]
fn print_left_border_only() {
    let mut canvas = SimpleCanvas::from_size(Vec2u::new(10, 10));
    let style = PrintStyle::default().left_border_with(Color::Green);
    canvas.print(style.apply("ab"));
    // Content width 2 plus one border cell; anchor (4, 4), total width 3:
    // far edge min(4 + 2, 10) = 6, near edge 3, so the border column is
    // pixel column 3 and the content sits in cells (4,4) and (5,4).
    assert_eq!(canvas.cell_at(Vec2u::new(4, 4)).unwrap().c, 'a');
    assert_eq!(canvas.cell_at(Vec2u::new(5, 4)).unwrap().c, 'b');
    assert_eq!(canvas.color_at(Vec2u::new(3, 8)), Some(Color::Green));
    assert_eq!(canvas.color_at(Vec2u::new(3, 9)), Some(Color::Green));
}

#[test]
fn print_empty_content_paints_nothing() {
    let mut canvas = SimpleCanvas::from_size(Vec2u::new(10, 10));
    canvas.print(StyledPrint::from(""));
    for x in 0..10u16 {
        for y in 0..10u16 {
            assert_eq!(canvas.cell_at(Vec2u::new(x, y)).unwrap().c, ' ');
        }
    }
}
