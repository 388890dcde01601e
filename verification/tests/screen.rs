use editrs::{Document, Editor, Key, Position, Row, Size, Startup, StatusMessage};

fn t(s: &str) -> Vec<char> {
    s.chars().collect()
}

fn s(v: &Vec<char>) -> String {
    v.iter().collect()
}

fn on(name: Option<&str>, lines: &[&str], width: u16, height: u16) -> Editor {
    let document = Document::from_lines(name.map(t), lines.iter().map(|l| t(l)).collect());
    Editor::default(Startup::Opened(document), Size { width, height }, 0)
}

#[test]
fn a_message_is_visible_for_five_seconds() {
    let m = StatusMessage::from(t("hello"), 1000);
    assert_eq!(m.text, t("hello"));
    assert_eq!(m.time, 1000);
    assert!(m.is_visible(1000));
    assert!(m.is_visible(5999));
    assert!(!m.is_visible(6000));
    assert!(!m.is_visible(u64::MAX));
    assert!(m.is_visible(0));
}

#[test]
fn the_message_bar_goes_blank_but_the_message_stays() {
    let mut e = on(None, &[], 80, 24);
    e.status(&t("hello"), 2000);
    assert_eq!(s(&e.draw_message_bar(2000)), "[2] hello");
    assert_eq!(s(&e.draw_message_bar(6999)), "[2] hello");
    assert_eq!(s(&e.draw_message_bar(7000)), "");
    assert_eq!(s(&e.status_message().text), "[2] hello");
}

#[test]
fn the_message_bar_is_cut_to_the_width() {
    let mut e = on(None, &[], 6, 24);
    e.status(&t("hello world"), 0);
    assert_eq!(s(&e.draw_message_bar(0)), "[0] he");
    e.resize(Size { width: 0, height: 24 });
    assert_eq!(s(&e.draw_message_bar(0)), "");
}

#[test]
fn the_status_bar_of_a_named_document() {
    let e = on(Some("test.rs"), &["abc", "de"], 40, 10);
    assert_eq!(s(&e.draw_status_bar()), "test.rs - 2 lines             Rust | 1/2");
    assert_eq!(e.draw_status_bar().len(), 40);
}

#[test]
fn the_status_bar_of_a_changed_unnamed_document() {
    let mut e = on(None, &["abc", "de", "f"], 50, 10);
    e.process_keypress(Key::Down, 0);
    e.process_keypress(Key::Char('x'), 0);
    assert_eq!(
        s(&e.draw_status_bar()),
        "[No Name] - 3 lines (modified)   No filetype | 2/3"
    );
}

#[test]
fn the_status_bar_shows_a_long_file_name_in_full() {
    let e = on(Some("a_very_long_file_name_indeed.txt"), &[], 60, 10);
    assert_eq!(
        s(&e.draw_status_bar()),
        "a_very_long_file_name_indeed.txt - 0 lines No filetype | 1/0"
    );
    assert_eq!(e.draw_status_bar().len(), 60);
    let e = on(Some("a_very_long_file_name_indeed.txt"), &[], 30, 10);
    assert_eq!(s(&e.draw_status_bar()), "a_very_long_file_name_indeed.t");
}

#[test]
fn the_status_bar_is_cut_to_the_width() {
    let e = on(Some("test.rs"), &["abc", "de"], 20, 10);
    assert_eq!(s(&e.draw_status_bar()), "test.rs - 2 linesRus");
    let e = on(Some("test.rs"), &["abc", "de"], 0, 10);
    assert_eq!(s(&e.draw_status_bar()), "");
}

#[test]
fn the_greeting_is_centred() {
    let e = on(None, &[], 80, 24);
    let line = s(&e.draw_welcome_message());
    assert_eq!(line, format!("~{}editrs v0.1.0", " ".repeat(32)));
    let e = on(None, &[], 10, 24);
    assert_eq!(s(&e.draw_welcome_message()), "~editrs v0");
    let e = on(None, &[], 15, 24);
    assert_eq!(s(&e.draw_welcome_message()), "~editrs v0.1.0");
    let e = on(None, &[], 17, 24);
    assert_eq!(s(&e.draw_welcome_message()), "~ editrs v0.1.0");
}

#[test]
fn an_empty_document_greets_a_third_of_the_way_down() {
    let e = on(None, &[], 80, 24);
    let rows = e.draw_rows();
    assert_eq!(rows.len(), 24);
    for (i, row) in rows.iter().enumerate() {
        if i == 8 {
            assert_eq!(row, &e.draw_welcome_message());
        } else {
            assert_eq!(s(row), "~");
        }
    }
}

#[test]
fn rows_show_the_window_on_the_document() {
    let mut e = on(None, &["hello world", "abc"], 5, 3);
    let rows: Vec<String> = e.draw_rows().iter().map(s).collect();
    assert_eq!(rows, vec!["hello", "abc", "~"]);
    e.process_keypress(Key::End, 0);
    assert_eq!(e.offset(), Position { x: 7, y: 0 });
    let rows: Vec<String> = e.draw_rows().iter().map(s).collect();
    assert_eq!(rows, vec!["orld", "", "~"]);
    assert_eq!(s(&e.draw_row(&Row::new(t("0123456789abcdef")))), "789ab");
}

#[test]
fn the_frame_holds_all_parts() {
    let mut e = on(Some("n.txt"), &["hello world", "abc"], 5, 3);
    e.process_keypress(Key::End, 1000);
    let frame = e.refresh_ui(1000);
    assert_eq!(frame.rows, e.draw_rows());
    assert_eq!(frame.status_bar, e.draw_status_bar());
    assert_eq!(s(&frame.status_bar), "n.txt");
    assert_eq!(frame.message_bar, e.draw_message_bar(1000));
    assert_eq!(s(&frame.message_bar), "ctrl-");
    assert_eq!(frame.cursor, Position { x: 4, y: 0 });
    let late = e.refresh_ui(5000);
    assert_eq!(s(&late.message_bar), "");
    assert_eq!(late.rows, frame.rows);
}

#[test]
fn a_text_area_without_rows_shows_none() {
    let e = on(None, &["abc"], 5, 0);
    assert!(e.draw_rows().is_empty());
    assert_eq!(e.refresh_ui(0).rows.len(), 0);
}
