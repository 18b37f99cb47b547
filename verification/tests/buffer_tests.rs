use clod::buffer::DoubleBuffer;
use clod::cell::Cell;
use clod::color::CellStyle;
use clod::geom::Vec2u;

#[test]
fn test_seed_from_u64() {}

#[test]
fn position_to_index() {
    let size = Vec2u::new(10, 20);
    let buffer = DoubleBuffer::from_size(size);
    assert_eq!(buffer.position_to_index(&Vec2u::new(0, 0)), 0);
    assert_eq!(buffer.position_to_index(&Vec2u::new(1, 0)), 1);
    assert_eq!(buffer.position_to_index(&Vec2u::new(0, 1)), 10);
    assert_eq!(buffer.position_to_index(&Vec2u::new(5, 7)), 75);
}

#[test]
fn index_to_position() {
    let size = Vec2u::new(10, 20);
    let buffer = DoubleBuffer::from_size(size);
    assert_eq!(buffer.index_to_position(0), Vec2u::new(0, 0));
    assert_eq!(buffer.index_to_position(10), Vec2u::new(0, 1));
    assert_eq!(buffer.index_to_position(1), Vec2u::new(1, 0));
    assert_eq!(buffer.index_to_position(1), Vec2u::new(1, 0));
    assert_eq!(buffer.index_to_position(75), Vec2u::new(5, 7));
}

#[test]
fn index_mapping_roundtrip() {
    let size = Vec2u::new(10, 20);
    let buffer = DoubleBuffer::from_size(size);
    for x in 0..10u16 {
        for y in 0..20u16 {
            let idx = buffer.position_to_index(&Vec2u::new(x, y));
            assert_eq!(buffer.index_to_position(idx), Vec2u::new(x, y));
        }
    }
    for idx in 0..200usize {
        let pos = buffer.index_to_position(idx);
        assert_eq!(buffer.position_to_index(&pos), idx);
    }
}

#[test]
fn diff_empty_after_two_swaps() {
    let mut buffer = DoubleBuffer::from_size(Vec2u::new(4, 3));
    let mut cell = Cell { c: ' ', style: CellStyle::new_empty() };
    cell.set_top(Some(clod::color::Color::Red));
    buffer.put(Vec2u::new(1, 1), cell);
    assert!(!buffer.diff(false).is_empty());
    buffer.swap();
    buffer.swap();
    assert!(buffer.diff(false).is_empty());
}

#[test]
fn diff_forced_returns_every_cell() {
    let buffer = DoubleBuffer::from_size(Vec2u::new(4, 3));
    assert_eq!(buffer.diff(true).len(), 12);
    let mut buffer2 = DoubleBuffer::from_size(Vec2u::new(7, 5));
    buffer2.swap();
    buffer2.swap();
    assert_eq!(buffer2.diff(true).len(), 35);
    assert_eq!(buffer2.diff(false).len(), 0);
}

#[test]
fn diff_reports_changed_cell_with_position() {
    let mut buffer = DoubleBuffer::from_size(Vec2u::new(4, 3));
    let mut cell = Cell { c: ' ', style: CellStyle::new_empty() };
    cell.set_bottom(Some(clod::color::Color::Blue));
    buffer.put(Vec2u::new(2, 1), cell);
    let diff = buffer.diff(false);
    assert_eq!(diff.len(), 1);
    assert_eq!(diff[0].0, cell);
    assert_eq!(diff[0].1, Vec2u::new(2, 1));
}

#[test]
fn resize_fills_with_default_cell() {
    let mut buffer = DoubleBuffer::from_size(Vec2u::new(2, 2));
    buffer.resize(Vec2u::new(3, 3));
    assert_eq!(buffer.at(Vec2u::new(2, 2)), Some(Cell { c: ' ', style: CellStyle::new_empty() }));
    assert_eq!(buffer.at(Vec2u::new(3, 0)), None);
    assert_eq!(buffer.at(Vec2u::new(0, 3)), None);
}
