use clod::canvas::SimpleCanvas;
use clod::color::Attribute;
use clod::color::Attributes;
use clod::color::CellStyle;
use clod::color::Color;
use clod::geom::Vec2i;
use clod::geom::Vec2u;
use clod::renderer::TermCommand;

#[test]
fn first_frame_renders_in_full() {
    let canvas = SimpleCanvas::from_size(Vec2u::new(3, 2));
    let plan = canvas.render_plan();
    assert_eq!(plan[0], TermCommand::ResetColor);
    let prints = plan.iter().filter(|c| matches!(c, TermCommand::Print(_))).count();
    let moves = plan.iter().filter(|c| matches!(c, TermCommand::MoveTo(_, _))).count();
    assert_eq!(prints, 6);
    assert_eq!(moves, 6);
}

#[test]
fn idle_frame_plans_nothing() {
    let mut canvas = SimpleCanvas::from_size(Vec2u::new(3, 2));
    canvas.finish_frame();
    let plan = canvas.render_plan();
    assert_eq!(plan, vec![TermCommand::ResetColor]);
    canvas.finish_frame();
    let plan = canvas.render_plan();
    assert_eq!(plan, vec![TermCommand::ResetColor]);
}

#[test]
fn changed_cell_is_moved_to_and_printed() {
    let mut canvas = SimpleCanvas::from_size(Vec2u::new(4, 4));
    canvas.finish_frame();
    canvas.point_with_color(Vec2i::new(2, 2), Color::Red);
    let plan = canvas.render_plan();
    assert_eq!(plan.len(), 4);
    assert_eq!(plan[0], TermCommand::ResetColor);
    assert_eq!(plan[1], TermCommand::MoveTo(2, 1));
    assert_eq!(plan[2], TermCommand::SetForegroundColor(Color::Red));
    assert_eq!(plan[3], TermCommand::Print(clod::cell::UPPER_HALF));
}

#[test]
fn style_changes_are_coalesced() {
    let mut canvas = SimpleCanvas::from_size(Vec2u::new(4, 1));
    canvas.finish_frame();
    // Two adjacent cells in the same color: the color is set once.
    canvas.point_with_color(Vec2i::new(0, 0), Color::Blue);
    canvas.point_with_color(Vec2i::new(1, 0), Color::Blue);
    let plan = canvas.render_plan();
    let sets = plan
        .iter()
        .filter(|c| matches!(c, TermCommand::SetForegroundColor(_)))
        .count();
    assert_eq!(sets, 1);
    let prints = plan.iter().filter(|c| matches!(c, TermCommand::Print(_))).count();
    assert_eq!(prints, 2);
}

#[test]
fn finish_frame_publishes_the_grid() {
    let mut canvas = SimpleCanvas::from_size(Vec2u::new(4, 4));
    canvas.finish_frame();
    canvas.point_with_color(Vec2i::new(1, 1), Color::Green);
    assert_eq!(canvas.render_plan().len(), 4);
    canvas.finish_frame();
    // The write grid was reset; the drawn pixel is gone, which diffs
    // against the published frame.
    assert_eq!(canvas.at(Vec2i::new(1, 1)), None);
    let plan = canvas.render_plan();
    assert!(plan.len() > 1);
    canvas.finish_frame();
    canvas.finish_frame();
    assert_eq!(canvas.render_plan(), vec![TermCommand::ResetColor]);
}

#[test]
fn background_color_forces_full_redraw() {
    let mut canvas = SimpleCanvas::from_size(Vec2u::new(2, 2));
    canvas.finish_frame();
    assert_eq!(canvas.render_plan(), vec![TermCommand::ResetColor]);
    canvas.set_background_color(Some(Color::Rgb { r: 1, g: 2, b: 3 }));
    let plan = canvas.render_plan();
    let prints = plan.iter().filter(|c| matches!(c, TermCommand::Print(_))).count();
    assert_eq!(prints, 4);
}

#[test]
fn attribute_change_resets_and_reemits_colors() {
    let from = CellStyle {
        foreground_color: Some(Color::Red),
        background_color: None,
        underline_color: None,
        attributes: Attributes::none(),
    };
    let to = CellStyle {
        foreground_color: Some(Color::Red),
        background_color: Some(Color::Blue),
        underline_color: None,
        attributes: Attributes::none().set(Attribute::Bold),
    };
    let commands = clod::renderer::style_transition(&from, &to);
    assert_eq!(
        commands,
        vec![
            TermCommand::SetBackgroundColor(Color::Blue),
            TermCommand::ResetAttributes,
            TermCommand::SetForegroundColor(Color::Red),
            TermCommand::SetBackgroundColor(Color::Blue),
            TermCommand::SetAttributes(Attributes::none().set(Attribute::Bold)),
        ]
    );
}

#[test]
fn unset_colors_emit_resets() {
    let from = CellStyle {
        foreground_color: Some(Color::Red),
        background_color: Some(Color::Blue),
        underline_color: None,
        attributes: Attributes::none(),
    };
    let to = CellStyle::new_empty();
    let commands = clod::renderer::style_transition(&from, &to);
    assert_eq!(
        commands,
        vec![
            TermCommand::SetBackgroundColor(Color::Reset),
            TermCommand::SetForegroundColor(Color::Reset),
        ]
    );
}
