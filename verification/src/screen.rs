//! What the session shows: the rows of text, the status bar, the message
//! bar and the place of the cursor on the screen.

use crate::document::{file_type_of, views, window, Row};
use crate::editor::{Editor, Position};
use crate::model::EditorView;
use crate::status::visible;
use crate::text::{chars_of, copy_of, cut, decimal, prefix, push_all, push_decimal, push_spaces,
    push_str, spaces};
use vstd::prelude::*;

verus! {

/// The greeting that an empty document shows.
pub const WELCOME: &'static str = "editrs v0.1.0";

/// What the status bar shows for a document without a file name.
pub const NO_NAME: &'static str = "[No Name]";

/// What stands between the file name and the number of lines.
pub const DASH: &'static str = " - ";

/// What stands behind the number of lines.
pub const LINES: &'static str = " lines";

/// The mark of a changed document.
pub const MODIFIED: &'static str = " (modified)";

/// What stands between the kind of file and the line indicator.
pub const BAR: &'static str = " | ";

/// What stands between the current line and the number of lines.
pub const SLASH: &'static str = "/";

/// What a row of the text area shows where the document has no row.
pub const TILDE: &'static str = "~";

/// The greeting as a row of a text area `width` cells wide: a tilde, then
/// the greeting centred by blanks, cut to the width.
pub open spec fn welcome_message(width: usize) -> Seq<char> {
    let len = WELCOME@.len();
    let padding = (if width > len {
        width - len
    } else {
        0
    }) / 2;
    let blanks = if padding > 0 {
        padding - 1
    } else {
        0
    };
    prefix(TILDE@ + spaces(blanks as nat) + WELCOME@, width as int)
}

/// One picture of the session.
pub struct FrameView {
    /// The rows of the text area, top to bottom.
    pub rows: Seq<Seq<char>>,
    /// The status bar.
    pub status_bar: Seq<char>,
    /// The message bar.
    pub message_bar: Seq<char>,
    /// The place of the cursor in the text area.
    pub cursor: Position,
}

/// One picture of the session.
#[derive(Clone, Debug, PartialEq, Eq)]
pub struct Frame {
    /// The rows of the text area, top to bottom.
    pub rows: Vec<Vec<char>>,
    /// The status bar.
    pub status_bar: Vec<char>,
    /// The message bar.
    pub message_bar: Vec<char>,
    /// The place of the cursor in the text area.
    pub cursor: Position,
}

impl View for Frame {
    type V = FrameView;

    open spec fn view(&self) -> FrameView {
        FrameView {
            rows: views(self.rows@),
            status_bar: self.status_bar@,
            message_bar: self.message_bar@,
            cursor: self.cursor,
        }
    }
}

impl EditorView {
    /// What the window shows of `row`: the columns from the window's first
    /// on, as many as the text area is wide.
    pub open spec fn row_drawn(self, row: Seq<char>) -> Seq<char> {
        window(
            row,
            self.offset.x as int,
            self.offset.x.saturating_add(self.size.width as usize) as int,
        )
    }

    /// What row `terminal_row` of the text area shows: the document's row
    /// there; or the greeting, a third of the way down an empty document;
    /// or a tilde.
    pub open spec fn screen_row(self, terminal_row: u16) -> Seq<char> {
        let y = self.offset.y.saturating_add(terminal_row as usize);
        if y < self.document.rows.len() {
            self.row_drawn(self.document.rows[y as int])
        } else if self.document.rows.len() == 0 && terminal_row == self.size.height / 3 {
            welcome_message(self.size.width as usize)
        } else {
            TILDE@
        }
    }

    /// The rows of the text area, top to bottom.
    pub open spec fn rows_drawn(self) -> Seq<Seq<char>> {
        Seq::new(self.size.height as nat, |i: int| self.screen_row(i as u16))
    }

    /// The left part of the status bar: the file name, or [`NO_NAME`]; the
    /// number of lines; and the mark of a changed document.
    pub open spec fn status_left(self) -> Seq<char> {
        let name = match self.document.file_name {
            Some(name) => name,
            None => NO_NAME@,
        };
        name + DASH@ + decimal(self.document.rows.len()) + LINES@ + (if self.document.dirty {
            MODIFIED@
        } else {
            Seq::empty()
        })
    }

    /// The right part of the status bar: the kind of file, and the line of
    /// the cursor, counted from one, out of the number of lines.
    pub open spec fn status_right(self) -> Seq<char> {
        file_type_of(self.document.file_name) + BAR@ + decimal(
            self.cursor.y.saturating_add(1) as nat,
        ) + SLASH@ + decimal(self.document.rows.len())
    }

    /// The status bar: the left part, blanks that push the right part to
    /// the edge of the text area, and the right part, cut to the width.
    pub open spec fn status_bar(self) -> Seq<char> {
        let left = self.status_left();
        let right = self.status_right();
        let width = self.size.width as int;
        let gap = if width > left.len() + right.len() {
            width - left.len() - right.len()
        } else {
            0
        };
        prefix(left + spaces(gap as nat) + right, width)
    }

    /// The message bar at `now`: the live message while it is visible, cut
    /// to the width; and nothing afterwards.
    pub open spec fn message_bar(self, now: u64) -> Seq<char> {
        if visible(self.status.time, now) {
            prefix(self.status.text, self.size.width as int)
        } else {
            Seq::empty()
        }
    }

    /// The place of the cursor in the text area.
    pub open spec fn screen_cursor(self) -> Position {
        Position {
            x: self.cursor.x.saturating_sub(self.offset.x),
            y: self.cursor.y.saturating_sub(self.offset.y),
        }
    }

    /// The picture of the session at `now`.
    pub open spec fn frame(self, now: u64) -> FrameView {
        FrameView {
            rows: self.rows_drawn(),
            status_bar: self.status_bar(),
            message_bar: self.message_bar(now),
            cursor: self.screen_cursor(),
        }
    }
}

impl Editor {
    /// The greeting as a row of the text area.
    pub fn draw_welcome_message(&self) -> (line: Vec<char>)
        ensures
            line@ == welcome_message(self@.size.width as usize),
    {
        let welcome = chars_of(WELCOME);
        let width = self.size().width as usize;
        let len = welcome.len();
        let padding = width.saturating_sub(len) / 2;
        let mut line = chars_of(TILDE);
        push_spaces(&mut line, padding.saturating_sub(1));
        push_all(&mut line, &welcome);
        cut(&mut line, width);
        line
    }

    /// What the window shows of `row`.
    pub fn draw_row(&self, row: &Row) -> (line: Vec<char>)
        ensures
            line@ == self@.row_drawn(row@),
    {
        let width = self.size().width as usize;
        let start = self.offset().x;
        let end = self.offset().x.saturating_add(width);
        row.render(start, end)
    }

    /// The rows of the text area, top to bottom.
    pub fn draw_rows(&self) -> (rows: Vec<Vec<char>>)
        ensures
            views(rows@) == self@.rows_drawn(),
    {
        let height = self.size().height;
        let mut rows: Vec<Vec<char>> = Vec::new();
        let mut terminal_row: u16 = 0;
        while terminal_row < height
            invariant
                terminal_row <= height,
                height == self@.size.height,
                rows@.len() == terminal_row,
                forall|i: int| 0 <= i < terminal_row ==> (#[trigger] rows@[i])@ == self@.screen_row(
                    i as u16,
                ),
            decreases height - terminal_row,
        {
            let line = match self.document().row(
                self.offset().y.saturating_add(terminal_row as usize),
            ) {
                Some(row) => self.draw_row(row),
                None => if self.document().is_empty() && terminal_row == height / 3 {
                    self.draw_welcome_message()
                } else {
                    chars_of(TILDE)
                },
            };
            rows.push(line);
            terminal_row += 1;
        }
        assert(views(rows@) =~= self@.rows_drawn());
        rows
    }

    /// The status bar.
    pub fn draw_status_bar(&self) -> (bar: Vec<char>)
        ensures
            bar@ == self@.status_bar(),
    {
        let width = self.size().width as usize;
        let mut status = match self.document().file_name() {
            Some(name) => copy_of(name),
            None => chars_of(NO_NAME),
        };
        push_str(&mut status, DASH);
        push_decimal(&mut status, self.document().len() as u64);
        push_str(&mut status, LINES);
        if self.document().is_dirty() {
            push_str(&mut status, MODIFIED);
        }
        assert(status@ =~= self@.status_left());
        let mut line_indicator = self.document().file_type();
        push_str(&mut line_indicator, BAR);
        push_decimal(&mut line_indicator, self.cursor_position().y.saturating_add(1) as u64);
        push_str(&mut line_indicator, SLASH);
        push_decimal(&mut line_indicator, self.document().len() as u64);
        let gap = width.saturating_sub(status.len()).saturating_sub(line_indicator.len());
        push_spaces(&mut status, gap);
        push_all(&mut status, &line_indicator);
        cut(&mut status, width);
        status
    }

    /// The message bar at `now`, in milliseconds.
    pub fn draw_message_bar(&self, now: u64) -> (bar: Vec<char>)
        ensures
            bar@ == self@.message_bar(now),
    {
        let message = self.status_message();
        if message.is_visible(now) {
            let mut text = copy_of(&message.text);
            cut(&mut text, self.size().width as usize);
            text
        } else {
            Vec::new()
        }
    }

    /// The picture of the session at `now`, in milliseconds.
    pub fn refresh_ui(&self, now: u64) -> (frame: Frame)
        ensures
            frame@ == self@.frame(now),
    {
        Frame {
            rows: self.draw_rows(),
            status_bar: self.draw_status_bar(),
            message_bar: self.draw_message_bar(now),
            cursor: Position {
                x: self.cursor_position().x.saturating_sub(self.offset().x),
                y: self.cursor_position().y.saturating_sub(self.offset().y),
            },
        }
    }
}

} // verus!
