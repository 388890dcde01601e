//! The cursor and the visible window: how keys move the cursor over the
//! document, and how the window follows it.

use crate::document::{fits, row_len, Document};
use crate::editor::{Position, Size};
use crate::key::Key;
use vstd::prelude::*;

verus! {

/// Whether `cursor` lies on the document: on one of its rows or on the row
/// after the last, and on a character of that row or just behind its end.
pub open spec fn in_bounds(cursor: Position, rows: Seq<Seq<char>>) -> bool {
    &&& cursor.y <= rows.len()
    &&& cursor.x <= row_len(rows, cursor.y as int)
}

/// Whether a window of `extent` cells that starts at `offset` shows `cursor`.
pub open spec fn in_window(cursor: usize, offset: usize, extent: usize) -> bool {
    offset <= cursor < offset + extent
}

/// Whether the window of `size` cells at `offset` shows `cursor`.
pub open spec fn shows(cursor: Position, offset: Position, size: Size) -> bool {
    &&& in_window(cursor.x, offset.x, size.width as usize)
    &&& in_window(cursor.y, offset.y, size.height as usize)
}

/// Where a window of `extent` cells that started at `offset` starts after it
/// has followed `cursor`, along one axis.
///
/// A cursor before the window pulls the start back onto itself; a cursor
/// behind the window pulls the window's last cell onto itself; otherwise the
/// window stays. Sums and differences stop at the ends of `usize`.
pub open spec fn scrolled_axis(cursor: usize, offset: usize, extent: usize) -> usize {
    if cursor < offset {
        cursor
    } else if cursor >= offset.saturating_add(extent) {
        cursor.saturating_sub(extent).saturating_add(1)
    } else {
        offset
    }
}

/// Where the window of `size` cells that started at `offset` starts after it
/// has followed `cursor`.
pub open spec fn scrolled(cursor: Position, offset: Position, size: Size) -> Position {
    Position {
        x: scrolled_axis(cursor.x, offset.x, size.width as usize),
        y: scrolled_axis(cursor.y, offset.y, size.height as usize),
    }
}

/// Where `key` takes `cursor` on a document of `rows`, with pages of `page`
/// rows.
///
/// Up and Down step one row and stop at the first row and at the row after
/// the last. Left steps one column back, and from the start of a row to the
/// end of the row before it; Right steps one column on, and from the end of
/// a row to the start of the next. Page Up and Page Down step `page` rows
/// and stop at the same ends. Home and End go to the start and the end of
/// the row. Other keys move nothing. In the end the column is cut to the
/// length of the row arrived at.
pub open spec fn moved(cursor: Position, key: Key, rows: Seq<Seq<char>>, page: usize) -> Position {
    let x = cursor.x as int;
    let y = cursor.y as int;
    let height = rows.len() as int;
    let width = row_len(rows, y);
    let (x1, y1): (int, int) = match key {
        Key::Up => (
            x,
            if y > 0 {
                y - 1
            } else {
                0
            },
        ),
        Key::Down => (
            x,
            if y < height {
                y + 1
            } else {
                y
            },
        ),
        Key::Left => if x > 0 {
            (x - 1, y)
        } else if y > 0 {
            (row_len(rows, y - 1), y - 1)
        } else {
            (x, y)
        },
        Key::Right => if x < width {
            (x + 1, y)
        } else if y < height {
            (0, y + 1)
        } else {
            (x, y)
        },
        Key::PageUp => (
            x,
            if y > page {
                y - page
            } else {
                0
            },
        ),
        Key::PageDown => (
            x,
            if y + page < height {
                y + page
            } else {
                height
            },
        ),
        Key::Home => (0, y),
        Key::End => (width, y),
        _ => (x, y),
    };
    let limit = row_len(rows, y1);
    Position {
        x: (if x1 > limit {
            limit
        } else {
            x1
        }) as usize,
        y: y1 as usize,
    }
}

/// Computes where the window starts after it has followed the cursor, along
/// one axis.
pub fn scroll_axis(cursor: usize, offset: usize, extent: usize) -> (r: usize)
    ensures
        r == scrolled_axis(cursor, offset, extent),
{
    if cursor < offset {
        cursor
    } else if cursor >= offset.saturating_add(extent) {
        cursor.saturating_sub(extent).saturating_add(1)
    } else {
        offset
    }
}

/// Computes where the window of `size` cells starts after it has followed
/// the cursor.
pub fn scroll(cursor: Position, offset: Position, size: Size) -> (r: Position)
    ensures
        r == scrolled(cursor, offset, size),
{
    Position {
        x: scroll_axis(cursor.x, offset.x, size.width as usize),
        y: scroll_axis(cursor.y, offset.y, size.height as usize),
    }
}

/// Computes where `key` takes `cursor` on `document`, with pages of `page`
/// rows.
pub fn move_cursor(cursor: Position, key: Key, document: &Document, page: usize) -> (r: Position)
    ensures
        r == moved(cursor, key, document@.rows, page),
{
    proof {
        document.lemma_fits();
    }
    let mut x: usize = cursor.x;
    let mut y: usize = cursor.y;
    let height: usize = document.len();
    let width: usize = document.row_len(y);
    match key {
        Key::Up => {
            y = y.saturating_sub(1);
        },
        Key::Down => {
            if y < height {
                y = y + 1;
            }
        },
        Key::Left => {
            if x > 0 {
                x = x - 1;
            } else if y > 0 {
                y = y - 1;
                x = document.row_len(y);
            }
        },
        Key::Right => {
            if x < width {
                x = x + 1;
            } else if y < height {
                y = y + 1;
                x = 0;
            }
        },
        Key::PageUp => {
            y = if y > page {
                y - page
            } else {
                0
            };
        },
        Key::PageDown => {
            y = if y.saturating_add(page) < height {
                y.saturating_add(page)
            } else {
                height
            };
        },
        Key::Home => {
            x = 0;
        },
        Key::End => {
            x = width;
        },
        _ => {},
    }
    let limit: usize = document.row_len(y);
    if x > limit {
        x = limit;
    }
    Position { x, y }
}

/// A move leaves the cursor on the document: from any row of the document,
/// or the row after the last, every key takes the cursor to a position on
/// the document, whatever the column it started from.
pub proof fn lemma_move_stays_in_bounds(
    cursor: Position,
    key: Key,
    rows: Seq<Seq<char>>,
    page: usize,
)
    requires
        fits(rows),
        cursor.y <= rows.len(),
    ensures
        in_bounds(moved(cursor, key, rows, page), rows),
{
}

/// After the window has followed the cursor along an axis, it shows the
/// cursor, provided that the window has any cell at all.
pub proof fn lemma_scroll_axis_shows_cursor(cursor: usize, offset: usize, extent: usize)
    requires
        extent > 0,
    ensures
        in_window(cursor, scrolled_axis(cursor, offset, extent), extent),
{
}

/// A window that shows the cursor stays where it is (but for a cursor at the
/// very end of `usize`).
pub proof fn lemma_scroll_axis_keeps_window(cursor: usize, offset: usize, extent: usize)
    requires
        in_window(cursor, offset, extent),
        cursor < usize::MAX,
    ensures
        scrolled_axis(cursor, offset, extent) == offset,
{
}

/// After the window has followed the cursor, it shows the cursor, provided
/// that it is at least one cell wide and one cell high.
pub proof fn lemma_scroll_shows_cursor(cursor: Position, offset: Position, size: Size)
    requires
        size.width > 0,
        size.height > 0,
    ensures
        shows(cursor, scrolled(cursor, offset, size), size),
{
}

/// Following the cursor twice is following it once, provided that the window
/// is at least one cell wide and one cell high.
pub proof fn lemma_scroll_idempotent(cursor: Position, offset: Position, size: Size)
    requires
        size.width > 0,
        size.height > 0,
    ensures
        scrolled(cursor, scrolled(cursor, offset, size), size) == scrolled(cursor, offset, size),
{
}

} // verus!
