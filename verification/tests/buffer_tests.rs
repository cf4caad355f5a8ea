//! Behaviour of the bounded FIFO buffer and its selection cursor.

use logtail::buffer::ContentBuffer;

fn filled(cap: usize, lines: &[&str]) -> ContentBuffer {
    let mut buf = ContentBuffer::new(cap);
    for l in lines {
        buf.append(l.to_string());
    }
    buf
}

#[test]
fn append_below_capacity_keeps_all_lines_in_order() {
    let buf = filled(3, &["1", "2"]);
    assert_eq!(buf.items, vec!["1".to_string(), "2".to_string()]);
    assert_eq!(buf.selected, Some(1));
}

#[test]
fn append_five_lines_capacity_three_keeps_last_three() {
    let buf = filled(3, &["1", "2", "3", "4", "5"]);
    assert_eq!(buf.items, vec!["3".to_string(), "4".to_string(), "5".to_string()]);
}

#[test]
fn eviction_is_strict_fifo_one_line_per_append() {
    let mut buf = filled(2, &["a", "b"]);
    buf.append("c".to_string());
    assert_eq!(buf.items, vec!["b".to_string(), "c".to_string()]);
    buf.append("d".to_string());
    assert_eq!(buf.items, vec!["c".to_string(), "d".to_string()]);
}

#[test]
fn cursor_follows_newest_line_below_capacity_only() {
    let mut buf = ContentBuffer::new(2);
    buf.append("a".to_string());
    assert_eq!(buf.selected, Some(0));
    buf.append("b".to_string());
    assert_eq!(buf.selected, Some(1));
    // At capacity: eviction leaves the cursor untouched.
    buf.selected = Some(0);
    buf.append("c".to_string());
    assert_eq!(buf.selected, Some(0));
}

#[test]
fn capacity_zero_buffer_stays_empty() {
    let buf = filled(0, &["a", "b"]);
    assert!(buf.items.is_empty());
    assert_eq!(buf.selected, None);
}

#[test]
fn load_initial_capacity_two_keeps_last_two_selects_newest() {
    let mut buf = ContentBuffer::new(2);
    let existing = vec!["a".to_string(), "b".to_string(), "c".to_string()];
    buf.load_initial(&existing);
    assert_eq!(buf.items, vec!["b".to_string(), "c".to_string()]);
    assert_eq!(buf.selected, Some(1));
}

#[test]
fn move_selection_on_empty_buffer_does_nothing() {
    let mut buf = ContentBuffer::new(3);
    buf.move_selection(true);
    assert_eq!(buf.selected, None);
    buf.move_selection(false);
    assert_eq!(buf.selected, None);
}

#[test]
fn move_selection_without_cursor_enters_at_direction_start() {
    let mut buf = filled(3, &["a", "b", "c"]);
    buf.selected = None;
    buf.move_selection(true);
    assert_eq!(buf.selected, Some(0));
    buf.selected = None;
    buf.move_selection(false);
    assert_eq!(buf.selected, Some(2));
}

#[test]
fn move_selection_steps_by_one_within_bounds() {
    let mut buf = filled(3, &["a", "b", "c"]);
    buf.selected = Some(1);
    buf.move_selection(true);
    assert_eq!(buf.selected, Some(2));
    buf.move_selection(false);
    buf.move_selection(false);
    assert_eq!(buf.selected, Some(0));
}

#[test]
fn move_selection_clamps_and_is_idempotent_at_boundaries() {
    let mut buf = filled(3, &["a", "b", "c"]);
    buf.selected = Some(2);
    buf.move_selection(true);
    buf.move_selection(true);
    assert_eq!(buf.selected, Some(2));
    buf.selected = Some(0);
    buf.move_selection(false);
    buf.move_selection(false);
    assert_eq!(buf.selected, Some(0));
}
