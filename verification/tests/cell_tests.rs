use clod::cell::Cell;
use clod::cell::FULL_BLOCK;
use clod::cell::LOWER_HALF;
use clod::cell::UPPER_HALF;
use clod::color::Attributes;
use clod::color::CellStyle;
use clod::color::Color;

fn cell(c: char, fg: Option<Color>, bg: Option<Color>) -> Cell {
    Cell {
        c,
        style: CellStyle {
            foreground_color: fg,
            background_color: bg,
            underline_color: None,
            attributes: Attributes::none(),
        },
    }
}

const A: Color = Color::Red;
const B: Color = Color::Blue;
const N: Color = Color::Green;

#[test]
fn set_top_transitions() {
    let mut c = cell(' ', None, None);
    c.set_top(Some(N));
    assert_eq!(c, cell(UPPER_HALF, Some(N), None));

    let mut c = cell(UPPER_HALF, Some(A), Some(B));
    c.set_top(Some(N));
    assert_eq!(c, cell(UPPER_HALF, Some(N), Some(B)));

    let mut c = cell(LOWER_HALF, Some(A), Some(B));
    c.set_top(Some(N));
    assert_eq!(c, cell(LOWER_HALF, Some(A), Some(N)));

    let mut c = cell(FULL_BLOCK, Some(A), None);
    c.set_top(Some(N));
    assert_eq!(c, cell(LOWER_HALF, Some(A), Some(N)));

    let mut c = cell('x', Some(A), Some(B));
    c.set_top(Some(N));
    assert_eq!(c, cell(UPPER_HALF, Some(N), None));
}

#[test]
fn set_bottom_transitions() {
    let mut c = cell(' ', None, None);
    c.set_bottom(Some(N));
    assert_eq!(c, cell(LOWER_HALF, Some(N), None));

    let mut c = cell(UPPER_HALF, Some(A), Some(B));
    c.set_bottom(Some(N));
    assert_eq!(c, cell(UPPER_HALF, Some(A), Some(N)));

    let mut c = cell(LOWER_HALF, Some(A), Some(B));
    c.set_bottom(Some(N));
    assert_eq!(c, cell(LOWER_HALF, Some(N), Some(B)));

    let mut c = cell(FULL_BLOCK, Some(A), None);
    c.set_bottom(Some(N));
    assert_eq!(c, cell(UPPER_HALF, Some(A), Some(N)));

    let mut c = cell('x', Some(A), Some(B));
    c.set_bottom(Some(N));
    assert_eq!(c, cell(LOWER_HALF, Some(N), None));
}

#[test]
fn unset_top_transitions() {
    let mut c = cell(' ', None, None);
    c.unset_top();
    assert_eq!(c, cell(' ', None, None));

    // A bare space with a latent background promotes it to the bottom.
    let mut c = cell(' ', None, Some(B));
    c.unset_top();
    assert_eq!(c, cell(LOWER_HALF, Some(B), None));

    let mut c = cell(UPPER_HALF, Some(A), Some(B));
    c.unset_top();
    assert_eq!(c, cell(LOWER_HALF, Some(B), None));

    let mut c = cell(UPPER_HALF, Some(A), None);
    c.unset_top();
    assert_eq!(c, cell(' ', None, None));

    let mut c = cell(LOWER_HALF, Some(A), Some(B));
    c.unset_top();
    assert_eq!(c, cell(LOWER_HALF, Some(A), None));

    let mut c = cell(FULL_BLOCK, Some(A), Some(B));
    c.unset_top();
    assert_eq!(c, cell(LOWER_HALF, Some(A), None));

    let mut c = cell('x', Some(A), Some(B));
    c.unset_top();
    assert_eq!(c, cell(' ', None, None));
}

#[test]
fn unset_bottom_transitions() {
    let mut c = cell(' ', None, None);
    c.unset_bottom();
    assert_eq!(c, cell(' ', None, None));

    let mut c = cell(' ', None, Some(B));
    c.unset_bottom();
    assert_eq!(c, cell(UPPER_HALF, Some(B), None));

    let mut c = cell(UPPER_HALF, Some(A), Some(B));
    c.unset_bottom();
    assert_eq!(c, cell(UPPER_HALF, Some(A), None));

    let mut c = cell(LOWER_HALF, Some(A), Some(B));
    c.unset_bottom();
    assert_eq!(c, cell(UPPER_HALF, Some(B), None));

    let mut c = cell(LOWER_HALF, Some(A), None);
    c.unset_bottom();
    assert_eq!(c, cell(' ', None, None));

    let mut c = cell(FULL_BLOCK, Some(A), Some(B));
    c.unset_bottom();
    assert_eq!(c, cell(UPPER_HALF, Some(A), None));

    let mut c = cell('x', Some(A), Some(B));
    c.unset_bottom();
    assert_eq!(c, cell(' ', None, None));
}

#[test]
fn reads_ignore_inactive_slots() {
    assert_eq!(cell(' ', Some(A), Some(B)).at_top(), None);
    assert_eq!(cell(' ', Some(A), Some(B)).at_bottom(), None);
    assert_eq!(cell(UPPER_HALF, Some(A), Some(B)).at_top(), Some(A));
    assert_eq!(cell(UPPER_HALF, Some(A), Some(B)).at_bottom(), Some(B));
    assert_eq!(cell(LOWER_HALF, Some(A), Some(B)).at_top(), Some(B));
    assert_eq!(cell(LOWER_HALF, Some(A), Some(B)).at_bottom(), Some(A));
    assert_eq!(cell(FULL_BLOCK, Some(A), Some(B)).at_top(), Some(A));
    assert_eq!(cell(FULL_BLOCK, Some(A), Some(B)).at_bottom(), Some(A));
    assert_eq!(cell('x', Some(A), Some(B)).at_top(), None);
    assert_eq!(cell('x', Some(A), Some(B)).at_bottom(), None);
}
