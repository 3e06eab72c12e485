use termframe::Buffer;
use termframe::Cell;
use termframe::Position;
use termframe::Rect;
use termframe::clamp_position;
use termframe::diff;
use termframe::full_changes;

fn cell(glyph: char) -> Cell {
    Cell { glyph, style: 0 }
}

fn blank_buffer(width: u16, height: u16) -> Buffer {
    Buffer::new(width, height)
}

#[test]
fn diff_equal_buffers_is_empty() {
    let mut prev = blank_buffer(10, 5);
    let mut target = blank_buffer(10, 5);
    prev.set(4, 1, cell('a'));
    target.set(4, 1, cell('a'));
    let changes = diff(&prev, &target);
    assert_eq!(changes.len(), 0);
}

#[test]
fn diff_of_blank_against_spaces_changes_every_cell() {
    let prev = blank_buffer(10, 5);
    let mut target = blank_buffer(10, 5);
    target.fill(cell(' '));
    let changes = diff(&prev, &target);
    assert_eq!(changes.len(), 50);
    for c in &changes {
        assert_eq!(c.cell, cell(' '));
    }
}

#[test]
fn diff_single_cell_mutation() {
    let mut prev = blank_buffer(10, 5);
    prev.fill(cell(' '));
    let mut target = blank_buffer(10, 5);
    target.fill(cell(' '));
    target.set(3, 2, cell('#'));
    let changes = diff(&prev, &target);
    assert_eq!(changes.len(), 1);
    assert_eq!(changes[0].x, 3);
    assert_eq!(changes[0].y, 2);
    assert_eq!(changes[0].cell, cell('#'));
}

#[test]
fn diff_is_row_major() {
    let prev = blank_buffer(3, 2);
    let mut target = blank_buffer(3, 2);
    target.set(1, 1, cell('b'));
    target.set(2, 0, cell('a'));
    let changes = diff(&prev, &target);
    assert_eq!(changes.len(), 2);
    assert_eq!((changes[0].x, changes[0].y), (2, 0));
    assert_eq!((changes[1].x, changes[1].y), (1, 1));
}

#[test]
fn diff_of_empty_viewport_is_empty() {
    let prev = blank_buffer(0, 5);
    let target = blank_buffer(0, 5);
    let changes = diff(&prev, &target);
    assert_eq!(changes.len(), 0);

    let prev = blank_buffer(7, 0);
    let target = blank_buffer(7, 0);
    let changes = diff(&prev, &target);
    assert_eq!(changes.len(), 0);
}

#[test]
fn full_changes_lists_every_cell_row_major() {
    let mut target = blank_buffer(4, 3);
    target.fill(cell('z'));
    let changes = full_changes(&target);
    assert_eq!(changes.len(), 12);
    for (i, c) in changes.iter().enumerate() {
        assert_eq!(c.x as usize, i % 4);
        assert_eq!(c.y as usize, i / 4);
        assert_eq!(c.cell, cell('z'));
    }
}

#[test]
fn buffer_get_reads_back_what_set_wrote() {
    let mut b = blank_buffer(6, 4);
    b.set(5, 3, cell('q'));
    assert_eq!(b.get(5, 3), cell('q'));
    assert_eq!(b.get(0, 0), Cell { glyph: '\u{0}', style: 0 });
}

#[test]
fn clamp_pulls_out_of_bounds_to_the_edge() {
    let area = Rect { x: 0, y: 0, width: 10, height: 5 };
    let p = clamp_position(Position { x: 50, y: 50 }, area);
    assert_eq!((p.x, p.y), (9, 4));
    let p = clamp_position(Position { x: 10, y: 4 }, area);
    assert_eq!((p.x, p.y), (9, 4));
}

#[test]
fn clamp_keeps_in_bounds_positions() {
    let area = Rect { x: 0, y: 0, width: 10, height: 5 };
    let p = clamp_position(Position { x: 9, y: 0 }, area);
    assert_eq!((p.x, p.y), (9, 0));
    let p = clamp_position(Position { x: 0, y: 4 }, area);
    assert_eq!((p.x, p.y), (0, 4));
}

#[test]
fn clamp_on_empty_viewport_answers_origin() {
    let area = Rect { x: 0, y: 0, width: 0, height: 0 };
    let p = clamp_position(Position { x: 3, y: 3 }, area);
    assert_eq!((p.x, p.y), (0, 0));
}
