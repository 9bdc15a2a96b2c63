use vimrs::editor::{Cursor, Editor, Viewport};
use vimrs::text_buffer::TextBuffer;

#[test]
fn new_cursor_is_at_origin() {
    let c = Cursor::new();
    assert_eq!(c.char_index, 0);
    assert_eq!(c.sticky_column, 0);
}

#[test]
fn new_editor_is_empty_and_dirty() {
    let e = Editor::new(23, 80);
    assert_eq!(e.cursor.char_index, 0);
    assert!(e.is_dirty());
    assert_eq!(e.current_buffer().line_count(), 1);
    assert_eq!(e.get_cursor_pos(), (0, 0));
}

#[test]
fn clean_clears_dirty_only() {
    let mut e = Editor::new(23, 80);
    e.clean();
    assert!(!e.is_dirty());
    assert_eq!(e.cursor_idx(), 0);
}

#[test]
fn moving_right_stops_at_end_of_line() {
    // "ab\ncd": the end of line 0 is the newline at offset 2; moving right
    // from there must not land on 'c' at offset 3.
    let mut e = Editor::from_text(23, 80, "ab\ncd", None);
    e.move_cursor(1, 0);
    assert_eq!(e.cursor_idx(), 1);
    e.move_cursor(1, 0);
    assert_eq!(e.cursor_idx(), 2);
    e.move_cursor(1, 0);
    assert_eq!(e.cursor_idx(), 2);
    e.move_cursor(5, 0);
    assert_eq!(e.cursor_idx(), 2);
    assert_eq!(e.get_cursor_line_idx(), 0);
}

#[test]
fn moving_left_crosses_into_the_previous_line() {
    let mut e = Editor::from_text(23, 80, "ab\ncd", None);
    e.move_cursor(0, 1);
    assert_eq!(e.cursor_idx(), 3);
    e.move_cursor(-1, 0);
    // from the start of line 1 the cursor backs onto line 0's newline,
    // and the remembered column comes from where it lands
    assert_eq!(e.cursor_idx(), 2);
    assert_eq!(e.get_cursor_line_idx(), 0);
    assert_eq!(e.cursor.sticky_column, 2);
    e.move_cursor(-10, 0);
    assert_eq!(e.cursor_idx(), 0);
    assert_eq!(e.cursor.sticky_column, 0);
}

#[test]
fn sticky_column_survives_short_line_round_trip() {
    // Lines of lengths 10, 2, 10: column 7 on line 0, then down through
    // the short line and back up, must land on column 7 of line 0 again.
    let text = "aaaaaaaaaa\nbb\ncccccccccc";
    let mut e = Editor::from_text(23, 80, text, None);
    for _ in 0..7 {
        e.move_cursor(1, 0);
    }
    assert_eq!(e.get_cursor_pos(), (7, 0));
    assert_eq!(e.cursor.sticky_column, 7);
    e.move_cursor(0, 1);
    assert_eq!(e.get_cursor_pos(), (2, 1));
    assert_eq!(e.cursor.sticky_column, 7);
    e.move_cursor(0, 1);
    assert_eq!(e.get_cursor_pos(), (7, 2));
    e.move_cursor(0, 1);
    assert_eq!(e.get_cursor_pos(), (7, 2));
    e.move_cursor(0, -1);
    assert_eq!(e.get_cursor_pos(), (2, 1));
    e.move_cursor(0, -1);
    assert_eq!(e.get_cursor_pos(), (7, 0));
    assert_eq!(e.cursor.sticky_column, 7);
}

#[test]
fn moving_left_from_a_line_start_lands_on_the_newline() {
    let mut e = Editor::from_text(23, 80, "a\nb", None);
    e.move_cursor(0, 1);
    assert_eq!(e.cursor_idx(), 2);
    e.move_cursor(-1, 0);
    assert_eq!(e.cursor_idx(), 1);
    assert_eq!(e.get_cursor_line_idx(), 0);
}

#[test]
fn vertical_move_clamps_at_buffer_edges() {
    let mut e = Editor::from_text(23, 80, "a\nb\nc", None);
    e.move_cursor(0, -5);
    assert_eq!(e.get_cursor_line_idx(), 0);
    e.move_cursor(0, 100);
    assert_eq!(e.get_cursor_line_idx(), 2);
}

#[test]
fn diagonal_move_applies_vertical_then_horizontal() {
    let mut e = Editor::from_text(23, 80, "abc\ndef", None);
    e.move_cursor(2, 1);
    // down first (line 1, column 0 from sticky 0), then right by 2
    assert_eq!(e.get_cursor_pos(), (2, 1));
    assert_eq!(e.cursor.sticky_column, 2);
}

#[test]
fn insert_char_advances_cursor_and_marks_dirty() {
    let mut e = Editor::from_text(23, 80, "ab\ncd", None);
    e.clean();
    e.insert_char('X');
    assert_eq!(e.current_buffer().as_string(), "Xab\ncd");
    assert_eq!(e.cursor_idx(), 1);
    assert!(e.is_dirty());
    assert!(e.current_buffer().dirty);
}

#[test]
fn inserting_newline_splits_the_line() {
    let mut e = Editor::from_text(23, 80, "abcd", None);
    e.move_cursor(2, 0);
    e.insert_char('\n');
    assert_eq!(e.current_buffer().as_string(), "ab\ncd");
    assert_eq!(e.cursor_idx(), 3);
    assert_eq!(e.get_cursor_line_idx(), 1);
    assert_eq!(e.get_cursor_pos(), (0, 1));
}

#[test]
fn viewport_scrolls_to_keep_cursor_visible() {
    let mut e = Editor::from_text(2, 80, "a\nb\nc\nd\ne", None);
    assert_eq!(e.viewport.scroll_offset, 0);
    e.move_cursor(0, 3);
    // line 3 must be visible in a 2-row window: offset becomes 2
    assert_eq!(e.viewport.scroll_offset, 2);
    assert_eq!(e.get_cursor_pos(), (0, 1));
    e.move_cursor(0, -3);
    // back to line 0: minimal scroll up
    assert_eq!(e.viewport.scroll_offset, 0);
    assert_eq!(e.get_cursor_pos(), (0, 0));
}

#[test]
fn visible_lines_start_at_scroll_offset() {
    let mut e = Editor::from_text(2, 80, "a\nb\nc\nd\ne", None);
    e.move_cursor(0, 3);
    let lines = e.visible_lines();
    assert_eq!(lines, vec!["c\n".to_string(), "d\n".to_string()]);
}

#[test]
fn visible_lines_short_buffer_fills_partially() {
    let e = Editor::from_text(10, 80, "a\nb", None);
    let lines = e.visible_lines();
    assert_eq!(lines, vec!["a\n".to_string(), "b".to_string()]);
}

#[test]
fn get_line_is_screen_relative() {
    let mut e = Editor::from_text(2, 80, "a\nb\nc\nd\ne", None);
    e.move_cursor(0, 3);
    assert_eq!(e.viewport.scroll_offset, 2);
    assert_eq!(e.get_line(0), Some("c\n".to_string()));
    assert_eq!(e.get_line(1), Some("d\n".to_string()));
    assert_eq!(e.get_line(3), None);
}

#[test]
fn set_size_keeps_cursor_and_corrects_scroll() {
    let mut e = Editor::from_text(10, 80, "a\nb\nc\nd\ne", None);
    e.move_cursor(0, 4);
    assert_eq!(e.viewport.scroll_offset, 0);
    let idx = e.cursor_idx();
    e.set_size(2, 40);
    assert_eq!(e.cursor_idx(), idx);
    assert_eq!(e.viewport.rows, 2);
    assert_eq!(e.viewport.cols, 40);
    // line 4 must have come into the 2-row window
    assert_eq!(e.viewport.scroll_offset, 3);
}

#[test]
fn viewport_resize_leaves_scroll_alone() {
    let mut vp = Viewport::new(5, 10);
    vp.scroll_to(7);
    assert_eq!(vp.scroll_offset, 3);
    vp.resize(2, 2);
    assert_eq!(vp.scroll_offset, 3);
    assert_eq!(vp.rows, 2);
    assert_eq!(vp.cols, 2);
}

#[test]
fn screen_row_saturates_above_window() {
    let mut vp = Viewport::new(5, 10);
    vp.scroll_to(7);
    assert_eq!(vp.screen_row(2), 0);
    assert_eq!(vp.screen_row(4), 1);
}

#[test]
fn switching_buffers_revalidates_the_cursor() {
    let mut e = Editor::from_text(23, 80, "a long first line", None);
    e.add_buffer(TextBuffer::from_text("ab", None));
    e.move_cursor(10, 0);
    assert_eq!(e.cursor_idx(), 10);
    e.switch_buffer(1);
    // offset 10 does not exist in the two-char buffer: clamped to its end
    assert_eq!(e.cursor_idx(), 2);
    assert_eq!(e.current_buffer().as_string(), "ab");
    assert!(e.is_dirty());
    e.switch_buffer(0);
    assert_eq!(e.cursor_idx(), 2);
    assert_eq!(e.current_buffer().as_string(), "a long first line");
}

#[test]
fn cursor_stays_in_bounds_under_any_moves() {
    let mut e = Editor::from_text(3, 80, "ab\n\ncdef\ng", None);
    let moves: [(isize, isize); 12] = [
        (5, 0),
        (0, 3),
        (-7, -1),
        (100, 100),
        (-100, -100),
        (1, 1),
        (0, -2),
        (3, 0),
        (0, 1),
        (-1, 0),
        (2, -3),
        (0, 0),
    ];
    for (dx, dy) in moves {
        e.move_cursor(dx, dy);
        let len = e.current_buffer().len_chars();
        assert!(e.cursor_idx() <= len);
    }
}
