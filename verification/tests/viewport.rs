use editrs::viewport::{move_cursor, scroll, scroll_axis};
use editrs::{Document, Key, Position, Size};

fn t(s: &str) -> Vec<char> {
    s.chars().collect()
}

fn doc() -> Document {
    Document::from_lines(None, vec![t("abc"), t(""), t("hello world")])
}

fn at(x: usize, y: usize) -> Position {
    Position { x, y }
}

#[test]
fn up_and_down_step_one_row_and_stop_at_the_ends() {
    let d = doc();
    assert_eq!(move_cursor(at(1, 0), Key::Up, &d, 2), at(1, 0));
    assert_eq!(move_cursor(at(2, 2), Key::Up, &d, 2), at(0, 1));
    assert_eq!(move_cursor(at(2, 0), Key::Down, &d, 2), at(0, 1));
    assert_eq!(move_cursor(at(0, 1), Key::Down, &d, 2), at(0, 2));
    assert_eq!(move_cursor(at(5, 2), Key::Down, &d, 2), at(0, 3));
    assert_eq!(move_cursor(at(0, 3), Key::Down, &d, 2), at(0, 3));
}

#[test]
fn left_wraps_to_the_end_of_the_row_before() {
    let d = doc();
    assert_eq!(move_cursor(at(2, 0), Key::Left, &d, 2), at(1, 0));
    assert_eq!(move_cursor(at(0, 0), Key::Left, &d, 2), at(0, 0));
    assert_eq!(move_cursor(at(0, 1), Key::Left, &d, 2), at(3, 0));
    assert_eq!(move_cursor(at(0, 2), Key::Left, &d, 2), at(0, 1));
    assert_eq!(move_cursor(at(0, 3), Key::Left, &d, 2), at(11, 2));
}

#[test]
fn right_wraps_to_the_start_of_the_next_row() {
    let d = doc();
    assert_eq!(move_cursor(at(0, 0), Key::Right, &d, 2), at(1, 0));
    assert_eq!(move_cursor(at(3, 0), Key::Right, &d, 2), at(0, 1));
    assert_eq!(move_cursor(at(0, 1), Key::Right, &d, 2), at(0, 2));
    assert_eq!(move_cursor(at(11, 2), Key::Right, &d, 2), at(0, 3));
    assert_eq!(move_cursor(at(0, 3), Key::Right, &d, 2), at(0, 3));
}

#[test]
fn pages_step_by_the_height_and_stop_at_the_ends() {
    let d = doc();
    assert_eq!(move_cursor(at(0, 3), Key::PageUp, &d, 2), at(0, 1));
    assert_eq!(move_cursor(at(4, 2), Key::PageUp, &d, 2), at(3, 0));
    assert_eq!(move_cursor(at(0, 1), Key::PageUp, &d, 2), at(0, 0));
    assert_eq!(move_cursor(at(0, 0), Key::PageDown, &d, 2), at(0, 2));
    assert_eq!(move_cursor(at(0, 1), Key::PageDown, &d, 2), at(0, 3));
    assert_eq!(move_cursor(at(0, 0), Key::PageDown, &d, 50), at(0, 3));
    assert_eq!(move_cursor(at(0, 0), Key::PageDown, &d, usize::MAX), at(0, 3));
    assert_eq!(move_cursor(at(2, 2), Key::PageUp, &d, 0), at(2, 2));
}

#[test]
fn home_and_end_go_to_the_ends_of_the_row() {
    let d = doc();
    assert_eq!(move_cursor(at(5, 2), Key::Home, &d, 2), at(0, 2));
    assert_eq!(move_cursor(at(0, 2), Key::End, &d, 2), at(11, 2));
    assert_eq!(move_cursor(at(0, 1), Key::End, &d, 2), at(0, 1));
    assert_eq!(move_cursor(at(0, 3), Key::End, &d, 2), at(0, 3));
}

#[test]
fn other_keys_move_nothing_but_cut_the_column() {
    let d = doc();
    assert_eq!(move_cursor(at(2, 0), Key::Esc, &d, 2), at(2, 0));
    assert_eq!(move_cursor(at(2, 0), Key::Char('a'), &d, 2), at(2, 0));
    assert_eq!(move_cursor(at(9, 0), Key::Insert, &d, 2), at(3, 0));
}

#[test]
fn every_move_stays_on_the_document() {
    let d = doc();
    let keys = [
        Key::Up,
        Key::Down,
        Key::Left,
        Key::Right,
        Key::PageUp,
        Key::PageDown,
        Key::Home,
        Key::End,
        Key::Esc,
    ];
    for y in 0..=3usize {
        for x in 0..=d.row_len(y) {
            for page in [0usize, 1, 2, 7] {
                for key in keys {
                    let p = move_cursor(at(x, y), key, &d, page);
                    assert!(p.y <= d.len());
                    assert!(p.x <= d.row_len(p.y));
                }
            }
        }
    }
}

#[test]
fn scroll_axis_moves_only_for_a_cursor_outside() {
    assert_eq!(scroll_axis(3, 5, 10), 3);
    assert_eq!(scroll_axis(5, 5, 10), 5);
    assert_eq!(scroll_axis(7, 5, 10), 5);
    assert_eq!(scroll_axis(14, 5, 10), 5);
    assert_eq!(scroll_axis(15, 5, 10), 6);
    assert_eq!(scroll_axis(20, 5, 10), 11);
    assert_eq!(scroll_axis(0, 0, 1), 0);
    assert_eq!(scroll_axis(1, 0, 1), 1);
}

#[test]
fn scroll_axis_stops_at_the_ends_of_the_numbers() {
    assert_eq!(scroll_axis(usize::MAX, 0, 1), usize::MAX);
    assert_eq!(scroll_axis(usize::MAX, usize::MAX - 1, 5), usize::MAX - 4);
    assert_eq!(scroll_axis(usize::MAX, 0, 0), usize::MAX);
    assert_eq!(scroll_axis(0, 0, 0), 1);
}

#[test]
fn scroll_is_idempotent() {
    let size = Size { width: 7, height: 3 };
    for cx in 0..30usize {
        for ox in 0..30usize {
            let cursor = at(cx, 29 - cx);
            let offset = at(ox, (ox * 7) % 30);
            let once = scroll(cursor, offset, size);
            let twice = scroll(cursor, once, size);
            assert_eq!(once, twice);
            assert!(once.x <= cursor.x && cursor.x < once.x + 7);
            assert!(once.y <= cursor.y && cursor.y < once.y + 3);
        }
    }
}

#[test]
fn scroll_follows_both_axes() {
    let size = Size { width: 10, height: 5 };
    assert_eq!(scroll(at(0, 0), at(0, 0), size), at(0, 0));
    assert_eq!(scroll(at(12, 7), at(0, 0), size), at(3, 3));
    assert_eq!(scroll(at(2, 1), at(3, 3), size), at(2, 1));
    assert_eq!(scroll(at(9, 4), at(0, 0), size), at(0, 0));
}
