use clod::align::CanvasAlignment;
use clod::color::Attribute;
use clod::color::Color;
use clod::geom::Vec2u;
use clod::style::PrintStyle;

#[test]
fn set_fg_bg_add_attr() {
    let style = PrintStyle::default()
        .with(Color::Blue)
        .on(Color::Red)
        .attribute(Attribute::Bold);

    assert_eq!(style.foreground_color, Some(Color::Blue));
    assert_eq!(style.background_color, Some(Color::Red));
    assert!(style.attributes.has(Attribute::Bold));

    let mut styled_content = style.apply("test");

    styled_content = styled_content
        .with(Color::Green)
        .on(Color::Magenta)
        .attribute(Attribute::NoItalic);

    let style = styled_content.style();

    assert_eq!(style.foreground_color, Some(Color::Green));
    assert_eq!(style.background_color, Some(Color::Magenta));
    assert!(style.attributes.has(Attribute::Bold));
    assert!(style.attributes.has(Attribute::NoItalic));
}

#[test]
fn apply_canvas_align() {
    let canvas_size = Vec2u::new(10, 11);
    assert_eq!(CanvasAlignment::top().apply(canvas_size), Vec2u::new(4, 0));
    assert_eq!(CanvasAlignment::bottom().apply(canvas_size), Vec2u::new(4, 10));
    assert_eq!(CanvasAlignment::left().apply(canvas_size), Vec2u::new(0, 5));
    assert_eq!(CanvasAlignment::right().apply(canvas_size), Vec2u::new(9, 5));
    assert_eq!(
        CanvasAlignment::top().or(CanvasAlignment::left()).apply(canvas_size),
        Vec2u::new(0, 0)
    );
    assert_eq!(
        CanvasAlignment::bottom().or(CanvasAlignment::right()).apply(canvas_size),
        Vec2u::new(9, 10)
    );
    assert_eq!(
        CanvasAlignment::top()
            .or(CanvasAlignment::left())
            .or(CanvasAlignment::bottom())
            .or(CanvasAlignment::right())
            .apply(canvas_size),
        Vec2u::new(4, 5)
    );
    assert_eq!(
        CanvasAlignment::top()
            .or(CanvasAlignment::left())
            .or(CanvasAlignment::bottom())
            .or(CanvasAlignment::right())
            .apply(canvas_size),
        CanvasAlignment::center().apply(canvas_size)
    );
}

#[test]
fn center_halves_a_directional_pull() {
    // A directional flag pulls by half the canvas size; CENTER halves
    // the accumulated pull.
    let canvas_size = Vec2u::new(10, 11);
    assert_eq!(
        CanvasAlignment::center().or(CanvasAlignment::right()).apply(canvas_size),
        Vec2u::new(7, 5)
    );
    assert_eq!(
        CanvasAlignment::center().or(CanvasAlignment::left()).apply(canvas_size),
        Vec2u::new(2, 5)
    );
    assert_eq!(
        CanvasAlignment::center().or(CanvasAlignment::top()).apply(canvas_size),
        Vec2u::new(4, 2)
    );
    assert_eq!(
        CanvasAlignment::center().or(CanvasAlignment::bottom()).apply(canvas_size),
        Vec2u::new(4, 7)
    );
}

#[test]
fn no_flags_is_canvas_center() {
    let canvas_size = Vec2u::new(10, 11);
    assert_eq!(CanvasAlignment::none().apply(canvas_size), Vec2u::new(4, 5));
    assert_eq!(
        CanvasAlignment::none().apply(canvas_size),
        CanvasAlignment::center().apply(canvas_size)
    );
}

#[test]
fn border_and_padding_widths() {
    let style = PrintStyle::default()
        .left_border_with(Color::White)
        .top_border_with(Color::White)
        .left_padding(3)
        .right_padding(2);
    assert_eq!(style.border_style.left_width(), 1);
    assert_eq!(style.border_style.right_width(), 0);
    assert_eq!(style.border_style.top_width(), 1);
    assert_eq!(style.border_style.bottom_width(), 0);
    assert_eq!(style.border_style.extra_width(), 1);
    assert_eq!(style.border_style.extra_height(), 1);
    assert_eq!(style.left_width(), 4);
    assert_eq!(style.right_width(), 2);
    assert_eq!(style.top_width(), 1);
    assert_eq!(style.bottom_width(), 0);
    assert_eq!(style.extra_width(), 6);
    assert_eq!(style.extra_height(), 1);
}

#[test]
fn uniform_border_and_padding() {
    let style = PrintStyle::default().border_with(Color::Cyan).padding(2);
    assert_eq!(style.border_style.top_border, Some(Color::Cyan));
    assert_eq!(style.border_style.bottom_border, Some(Color::Cyan));
    assert_eq!(style.border_style.left_border, Some(Color::Cyan));
    assert_eq!(style.border_style.right_border, Some(Color::Cyan));
    assert_eq!(style.extra_width(), 6);
    assert_eq!(style.extra_height(), 6);
    let style = style.horizontal_padding(1).vertical_padding(0);
    assert_eq!(style.extra_width(), 4);
    assert_eq!(style.extra_height(), 2);
}

#[test]
fn styled_print_from_str_is_plain() {
    let styled = clod::style::StyledPrint::from("abc");
    assert_eq!(styled.content(), "abc");
    assert_eq!(*styled.style(), PrintStyle::default());
    let mut styled = clod::style::StyledPrint::new("abc", PrintStyle::default());
    styled.style_mut().foreground_color = Some(Color::Red);
    assert_eq!(styled.style().foreground_color, Some(Color::Red));
}

#[test]
fn underline_and_align() {
    let aligned = PrintStyle::default()
        .underline(Color::Green)
        .align(CanvasAlignment::top());
    assert_eq!(aligned.underline_color, Some(Color::Green));
    assert_eq!(aligned.alignment, Some(CanvasAlignment::top()));
}
