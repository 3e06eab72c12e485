use termframe::Buffer;
use termframe::Cell;
use termframe::Directive;
use termframe::DirectiveComposer;
use termframe::FillComposer;
use termframe::Position;
use termframe::RecordedCall;
use termframe::SimSink;
use termframe::StampComposer;
use termframe::Terminal;

fn cell(glyph: char) -> Cell {
    Cell { glyph, style: 0 }
}

fn count_show_cursor(calls: &[RecordedCall]) -> usize {
    calls.iter().filter(|c| matches!(c, RecordedCall::ShowCursor)).count()
}

fn count_hide_cursor(calls: &[RecordedCall]) -> usize {
    calls.iter().filter(|c| matches!(c, RecordedCall::HideCursor)).count()
}

fn count_draws(calls: &[RecordedCall]) -> usize {
    calls.iter().filter(|c| matches!(c, RecordedCall::Draw(_))).count()
}

#[test]
fn new_terminal_queries_size_and_starts_blank() {
    let term = Terminal::new(SimSink::new(10, 5)).unwrap();
    assert_eq!(term.backend.calls.len(), 1);
    assert!(matches!(term.backend.calls[0], RecordedCall::Size));
    assert_eq!(term.prev.width, 10);
    assert_eq!(term.prev.height, 5);
    assert!(term.prev.cells.iter().all(|c| *c == Cell { glyph: '\u{0}', style: 0 }));
}

#[test]
fn render_skips_draw_for_equal_buffers() {
    let mut term = Terminal::new(SimSink::new(10, 5)).unwrap();
    let target = Buffer::new(10, 5);
    term.render(target).unwrap();
    assert_eq!(count_draws(&term.backend.calls), 0);
}

#[test]
fn render_scenario_spaces_then_one_hash() {
    let mut term = Terminal::new(SimSink::new(10, 5)).unwrap();

    let mut frame1 = Buffer::new(10, 5);
    frame1.fill(cell(' '));
    term.render(frame1).unwrap();

    let mut frame2 = Buffer::new(10, 5);
    frame2.fill(cell(' '));
    frame2.set(3, 2, cell('#'));
    term.render(frame2).unwrap();

    let draws: Vec<&RecordedCall> =
        term.backend.calls.iter().filter(|c| matches!(c, RecordedCall::Draw(_))).collect();
    assert_eq!(draws.len(), 2);
    match draws[0] {
        RecordedCall::Draw(changes) => assert_eq!(changes.len(), 50),
        _ => unreachable!(),
    }
    match draws[1] {
        RecordedCall::Draw(changes) => {
            assert_eq!(changes.len(), 1);
            assert_eq!((changes[0].x, changes[0].y), (3, 2));
            assert_eq!(changes[0].cell, cell('#'));
        }
        _ => unreachable!(),
    }
}

#[test]
fn render_after_resize_sends_full_viewport() {
    let mut term = Terminal::new(SimSink::new(10, 5)).unwrap();
    let mut smaller = Buffer::new(4, 3);
    smaller.fill(cell('r'));
    term.render(smaller).unwrap();
    match &term.backend.calls[1] {
        RecordedCall::Draw(changes) => {
            assert_eq!(changes.len(), 12);
            for (i, c) in changes.iter().enumerate() {
                assert_eq!(c.x as usize, i % 4);
                assert_eq!(c.y as usize, i / 4);
            }
        }
        _ => panic!("expected a draw after the resize"),
    }
    assert_eq!(term.prev.width, 4);
    assert_eq!(term.prev.height, 3);
}

#[test]
fn show_twice_issues_at_most_one_call() {
    let mut term = Terminal::new(SimSink::new(10, 5)).unwrap();
    term.hide_cursor().unwrap();
    assert_eq!(count_hide_cursor(&term.backend.calls), 1);
    let before = count_show_cursor(&term.backend.calls);
    term.show_cursor().unwrap();
    term.show_cursor().unwrap();
    assert_eq!(count_show_cursor(&term.backend.calls) - before, 1);
}

#[test]
fn show_from_shown_state_is_silent() {
    let mut term = Terminal::new(SimSink::new(10, 5)).unwrap();
    term.show_cursor().unwrap();
    term.show_cursor().unwrap();
    assert_eq!(count_show_cursor(&term.backend.calls), 0);
}

#[test]
fn hide_twice_issues_at_most_one_call() {
    let mut term = Terminal::new(SimSink::new(10, 5)).unwrap();
    term.hide_cursor().unwrap();
    term.hide_cursor().unwrap();
    assert_eq!(count_hide_cursor(&term.backend.calls), 1);
}

#[test]
fn move_to_forwards_only_clamped_positions() {
    let mut term = Terminal::new(SimSink::new(10, 5)).unwrap();
    term.move_to(Position { x: 100, y: 100 }).unwrap();
    match term.backend.calls.last().unwrap() {
        RecordedCall::SetCursor(p) => assert_eq!((p.x, p.y), (9, 4)),
        _ => panic!("expected a cursor move"),
    }
    assert_eq!((term.cursor.pos.x, term.cursor.pos.y), (9, 4));
}

#[test]
fn get_cursor_placeholder_is_consistent() {
    let mut term = Terminal::new(SimSink::new(10, 5)).unwrap();
    let a = term.get_cursor().unwrap();
    let b = term.get_cursor().unwrap();
    assert_eq!((a.x, a.y), (100, 100));
    assert_eq!((b.x, b.y), (100, 100));
}

#[test]
fn clear_resets_committed_buffer() {
    let mut term = Terminal::new(SimSink::new(3, 2)).unwrap();
    let mut frame1 = Buffer::new(3, 2);
    frame1.fill(cell('x'));
    term.render(frame1).unwrap();
    term.clear().unwrap();
    assert!(term.backend.calls.iter().any(|c| matches!(c, RecordedCall::Clear)));
    assert!(term.prev.cells.iter().all(|c| *c == Cell { glyph: '\u{0}', style: 0 }));

    let mut frame2 = Buffer::new(3, 2);
    frame2.fill(cell('x'));
    term.render(frame2).unwrap();
    match term.backend.calls.last().unwrap() {
        RecordedCall::Draw(changes) => assert_eq!(changes.len(), 6),
        _ => panic!("expected a full redraw after clear"),
    }
}

#[test]
fn run_draws_once_for_a_steady_composer() {
    let mut term = Terminal::new(SimSink::new(10, 5)).unwrap();
    let mut composer = FillComposer { cell: cell(' ') };
    term.run(&mut composer, 2).unwrap();
    assert_eq!(count_draws(&term.backend.calls), 1);
    assert!(matches!(term.backend.calls.last().unwrap(), RecordedCall::ShowCursor));
}

#[test]
fn run_on_failing_draw_keeps_last_good_frame_and_restores_cursor() {
    let mut sink = SimSink::new(2, 1);
    sink.fail_draw_on = Some(3);
    let mut term = Terminal::new(sink).unwrap();
    let mut composer = StampComposer { frames: 0 };

    let err = term.run(&mut composer, 10).unwrap_err();
    assert!(err.restore_failure.is_none());

    // Three draws were attempted; the loop stopped at the third.
    assert_eq!(count_draws(&term.backend.calls), 3);
    // The committed buffer still holds the second frame's content.
    assert_eq!(term.prev.get(0, 0).style, 2);
    // Restoration still issued exactly one show_cursor, as the last call.
    assert_eq!(count_show_cursor(&term.backend.calls), 1);
    assert!(matches!(term.backend.calls.last().unwrap(), RecordedCall::ShowCursor));
}

#[test]
fn run_on_empty_viewport_never_draws_and_still_restores() {
    let mut term = Terminal::new(SimSink::new(0, 0)).unwrap();
    let mut composer = FillComposer { cell: cell(' ') };
    term.run(&mut composer, 3).unwrap();
    assert_eq!(count_draws(&term.backend.calls), 0);
    assert!(matches!(term.backend.calls.last().unwrap(), RecordedCall::ShowCursor));
}

#[test]
fn composer_hide_request_is_issued_once_across_frames() {
    let mut term = Terminal::new(SimSink::new(5, 5)).unwrap();
    let mut composer = DirectiveComposer {
        directive: Directive { show: Some(false), move_to: None, stop: false },
    };
    term.run(&mut composer, 3).unwrap();
    // The first frame flips the cursor hidden; later frames ask again but
    // the state machine stays silent.
    assert_eq!(count_hide_cursor(&term.backend.calls), 1);
    // Shutdown restoration still shows the cursor at the very end.
    assert!(matches!(term.backend.calls.last().unwrap(), RecordedCall::ShowCursor));
}

#[test]
fn composer_move_request_is_clamped_and_forwarded() {
    let mut term = Terminal::new(SimSink::new(8, 4)).unwrap();
    let mut composer = DirectiveComposer {
        directive: Directive { show: None, move_to: Some(Position { x: 99, y: 0 }), stop: true },
    };
    term.run(&mut composer, 3).unwrap();
    let forwarded: Vec<(u16, u16)> = term
        .backend
        .calls
        .iter()
        .filter_map(|c| match c {
            RecordedCall::SetCursor(p) => Some((p.x, p.y)),
            _ => None,
        })
        .collect();
    assert_eq!(forwarded, vec![(7, 0)]);
}

#[test]
fn composer_stop_request_ends_the_loop_after_one_frame() {
    let mut term = Terminal::new(SimSink::new(5, 5)).unwrap();
    let mut composer = DirectiveComposer {
        directive: Directive { show: None, move_to: None, stop: true },
    };
    term.run(&mut composer, 10).unwrap();
    // One size query at startup, then a single frame's size query.
    let sizes = term.backend.calls.iter().filter(|c| matches!(c, RecordedCall::Size)).count();
    assert_eq!(sizes, 2);
}

#[test]
fn run_resize_between_frames_redraws_everything() {
    let mut term = Terminal::new(SimSink::new(3, 2)).unwrap();
    let mut composer = FillComposer { cell: cell('w') };
    term.run(&mut composer, 1).unwrap();
    assert_eq!(count_draws(&term.backend.calls), 1);

    // The viewport grows between frames; the next frame re-sends every cell.
    term.backend.area.width = 4;
    term.backend.area.height = 3;
    term.run(&mut composer, 1).unwrap();
    match term.backend.calls.iter().rev().find(|c| matches!(c, RecordedCall::Draw(_))).unwrap() {
        RecordedCall::Draw(changes) => assert_eq!(changes.len(), 12),
        _ => unreachable!(),
    }
}
