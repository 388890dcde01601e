//! The session as a value, and its transitions as functions of that value.
//!
//! Every operation of [`crate::editor::Editor`] is stated as one of the
//! functions of [`EditorView`] below.

use crate::document::{deleted, fits, found, inserted, snapshot_lines, DocumentView};
use crate::editor::{Position, SearchDirection, Size};
use crate::key::Key;
use crate::prompt::{ends_prompt, prompt_result, typed};
use crate::status::{stamped, StatusView};
use crate::text::decimal;
use crate::viewport::{
    in_bounds, lemma_move_stays_in_bounds, lemma_scroll_idempotent, lemma_scroll_shows_cursor, moved,
    scrolled, shows,
};
use vstd::prelude::*;

verus! {

/// How many quit presses a changed document asks for.
pub const QUIT_TIMES: u8 = 3;

/// After how many keys a snapshot for recovery is written.
pub const BACKUP_AT: u32 = 10;

/// The name of the snapshot of a document that has no file name.
pub const CACHE_FILE: &'static str = "tmp";

/// What is appended to a document's file name to name its snapshot.
pub const BACKUP_SUFFIX: &'static str = ".tmp";

/// The message that a new session shows.
pub const HELP: &'static str =
    "ctrl-f:'find' | ctrl-s:'save' | ctrl-q:'quit' | ctrl-b:'temporary backup'";

/// The start of the message about a file that could not be opened.
pub const CANNOT_OPEN: &'static str = "__err__: cannot open: ";

/// The label of the prompt for a file name.
pub const SAVE_AS_LABEL: &'static str = "__save_as__: ";

/// The message after a prompt for a file name was left without one.
pub const SAVE_ABORTED: &'static str = "__save_aborted__";

/// The message after the document was saved.
pub const SAVE_OK: &'static str = "__save_ok__";

/// The message after saving failed.
pub const ERROR_SAVING: &'static str = "__error_saving__";

/// The message after the clipboard was pasted.
pub const PASTED: &'static str = "__pasted__";

/// The message after the clipboard could not be read.
pub const ERROR_PASTING: &'static str = "__error_pasting__";

/// The start of the message after a snapshot was written.
pub const BACKED_UP: &'static str = "__backed_up__:";

/// The label of the search prompt.
pub const SEARCH_LABEL: &'static str = "search (esc:cancel, arrows:navigate): ";

/// What the command line holds when it opens.
pub const COMMAND_START: &'static str = "::";

/// The start of the warning about unsaved changes.
pub const QUIT_WARNING_HEAD: &'static str = "__warn__:unsaved changes. hit ctrl-q ";

/// The end of the warning about unsaved changes.
pub const QUIT_WARNING_TAIL: &'static str = " more times to quit.";

/// The warning about unsaved changes, naming `presses` quit presses that
/// are still asked for.
pub open spec fn quit_warning(presses: u8) -> Seq<char> {
    QUIT_WARNING_HEAD@ + decimal(presses as nat) + QUIT_WARNING_TAIL@
}

/// The direction in which a search continues after `key`: backward after
/// Left and Up, forward after any other key.
pub open spec fn direction_after(key: Key) -> SearchDirection {
    match key {
        Key::Left | Key::Up => SearchDirection::Backward,
        _ => SearchDirection::Forward,
    }
}

/// Whether `key` makes a search step over the place it stands on: Right and
/// Down do.
pub open spec fn nudges(key: Key) -> bool {
    match key {
        Key::Right | Key::Down => true,
        _ => false,
    }
}

/// What the session is busy with.
pub enum ModeView {
    /// Editing: keys are commands.
    Normal,
    /// Asking for a file name to save under; `input` has been typed.
    SaveAs { input: Seq<char> },
    /// Searching for `input` as it is typed; `origin` is where the cursor
    /// stood when the search began.
    Search { input: Seq<char>, direction: SearchDirection, origin: Position },
    /// Echoing a command line.
    Command { buffer: Seq<char> },
    /// Waiting for a snapshot to be written; `then` is the key that waits
    /// for it.
    Backup { then: Option<Key> },
    /// Waiting for the document to be saved.
    Saving,
    /// Waiting for the clipboard.
    Pasting,
}

/// The outside work that the session waits for.
pub enum RequestView {
    /// Show the session and read a key.
    ReadKey,
    /// Write `lines` to the file `path`, as a snapshot for recovery.
    WriteBackup { path: Seq<char>, lines: Seq<Seq<char>> },
    /// Write `lines` to the file `path`, the document's own.
    SaveDocument { path: Seq<char>, lines: Seq<Seq<char>> },
    /// Read the clipboard.
    ReadClipboard,
    /// End the session.
    Quit,
}

/// Something that happened outside the session.
pub enum Event {
    /// A key was pressed.
    Key(Key),
    /// The snapshot was written (`true`) or could not be (`false`).
    BackupDone(bool),
    /// The document was saved (`true`) or could not be (`false`).
    SaveDone(bool),
    /// The clipboard was read, or could not be.
    Clipboard(Option<Seq<char>>),
}

/// The state of a session.
pub struct EditorView {
    /// Whether the session has ended.
    pub should_quit: bool,
    /// The extent of the text area.
    pub size: Size,
    /// Where the cursor stands in the document.
    pub cursor: Position,
    /// The document position shown in the top left cell.
    pub offset: Position,
    /// The document.
    pub document: DocumentView,
    /// The one live message.
    pub status: StatusView,
    /// How many quit presses a changed document still asks for.
    pub quit_times: u8,
    /// The search term to highlight.
    pub highlighted_word: Option<Seq<char>>,
    /// How many keys were processed since the last snapshot.
    pub since_last_backup: u32,
    /// The name of the snapshot of a document without a file name.
    pub cache_file: Seq<char>,
    /// When the session began, in milliseconds.
    pub session_start: u64,
    /// What the session is busy with.
    pub mode: ModeView,
}

/// The state of a session that begins at `now` on `document`, with `text` as
/// its first message and a text area of `size`.
pub open spec fn initial(document: DocumentView, text: Seq<char>, size: Size, now: u64) -> EditorView {
    EditorView {
        should_quit: false,
        size,
        cursor: Position { x: 0, y: 0 },
        offset: Position { x: 0, y: 0 },
        document,
        status: StatusView { text, time: now },
        quit_times: QUIT_TIMES,
        highlighted_word: None,
        since_last_backup: 0,
        cache_file: CACHE_FILE@,
        session_start: now,
        mode: ModeView::Normal,
    }
}

impl EditorView {
    /// Whether the state is one that a session can be in: the cursor, and
    /// the place a search began at, lie on the document; no more quit
    /// presses are asked for than [`QUIT_TIMES`]; a document that is being
    /// saved has a file name; and the snapshot of a document without one
    /// goes to [`CACHE_FILE`].
    pub open spec fn wf(self) -> bool {
        &&& fits(self.document.rows)
        &&& in_bounds(self.cursor, self.document.rows)
        &&& self.quit_times <= QUIT_TIMES
        &&& (self.mode matches ModeView::Search { origin, .. } ==> in_bounds(
            origin,
            self.document.rows,
        ))
        &&& (self.mode is Saving ==> self.document.file_name is Some)
        &&& self.cache_file == CACHE_FILE@
    }

    /// The file that a snapshot goes to: the document's file name with
    /// [`BACKUP_SUFFIX`] behind it, or [`Self::cache_file`] for a document
    /// without one.
    pub open spec fn backup_path(self) -> Seq<char> {
        match self.document.file_name {
            Some(name) => name + BACKUP_SUFFIX@,
            None => self.cache_file,
        }
    }

    /// The outside work that the session waits for.
    pub open spec fn request(self) -> RequestView {
        if self.should_quit {
            RequestView::Quit
        } else {
            match self.mode {
                ModeView::Backup { .. } => RequestView::WriteBackup {
                    path: self.backup_path(),
                    lines: snapshot_lines(self.document.rows),
                },
                ModeView::Saving => RequestView::SaveDocument {
                    path: match self.document.file_name {
                        Some(name) => name,
                        None => Seq::empty(),
                    },
                    lines: snapshot_lines(self.document.rows),
                },
                ModeView::Pasting => RequestView::ReadClipboard,
                _ => RequestView::ReadKey,
            }
        }
    }

    /// The state after `msg` was emitted at `now`: it replaces the live
    /// message.
    pub open spec fn status(self, msg: Seq<char>, now: u64) -> EditorView {
        EditorView {
            status: StatusView { text: stamped(msg, self.session_start, now), time: now },
            ..self
        }
    }

    /// The state after the window has followed the cursor.
    pub open spec fn scroll(self) -> EditorView {
        EditorView { offset: scrolled(self.cursor, self.offset, self.size), ..self }
    }

    /// The state after `key` has moved the cursor.
    pub open spec fn move_cursor(self, key: Key) -> EditorView {
        EditorView {
            cursor: moved(self.cursor, key, self.document.rows, self.size.height as usize),
            ..self
        }
    }

    /// The state after `c` was put into the document at `at`.
    pub open spec fn insert_at(self, at: Position, c: char) -> EditorView {
        EditorView {
            document: DocumentView {
                rows: inserted(self.document.rows, at, c),
                dirty: self.document.dirty || at.y <= self.document.rows.len(),
                ..self.document
            },
            ..self
        }
    }

    /// The state after the character under the cursor was taken out.
    pub open spec fn delete_at_cursor(self) -> EditorView {
        EditorView {
            document: DocumentView {
                rows: deleted(self.document.rows, self.cursor),
                dirty: self.document.dirty || self.cursor.y < self.document.rows.len(),
                ..self.document
            },
            ..self
        }
    }

    /// The state after a command has run to its end: the window follows the
    /// cursor, a quit confirmation that was under way is given up, and its
    /// warning is wiped; the session is back to editing.
    pub open spec fn finish(self, now: u64) -> EditorView {
        let s = self.scroll();
        let s = if s.quit_times < QUIT_TIMES {
            EditorView {
                quit_times: QUIT_TIMES,
                status: StatusView { text: Seq::empty(), time: now },
                ..s
            }
        } else {
            s
        };
        EditorView { mode: ModeView::Normal, ..s }
    }

    /// The state after a quit press.
    ///
    /// A changed document that still asks for presses takes one off, warns
    /// with the number that remains, and ends the session only with the last
    /// of them. Otherwise the session ends.
    pub open spec fn quit(self, now: u64) -> EditorView {
        if self.quit_times > 0 && self.document.dirty {
            let left = (self.quit_times - 1) as u8;
            EditorView {
                quit_times: left,
                should_quit: left == 0,
                mode: ModeView::Normal,
                ..self.status(quit_warning(left), now)
            }
        } else {
            (EditorView { should_quit: true, ..self }).finish(now)
        }
    }

    /// The state after the save command: a document with a file name waits
    /// to be saved, one without opens the prompt for a name.
    pub open spec fn save(self, now: u64) -> EditorView {
        if self.document.file_name is Some {
            EditorView { mode: ModeView::Saving, ..self }
        } else {
            EditorView {
                mode: ModeView::SaveAs { input: Seq::empty() },
                ..self.status(SAVE_AS_LABEL@, now)
            }
        }
    }

    /// The state after the find command: the search prompt is open, and
    /// remembers where the cursor stands.
    pub open spec fn search(self, now: u64) -> EditorView {
        EditorView {
            mode: ModeView::Search {
                input: Seq::empty(),
                direction: SearchDirection::Forward,
                origin: self.cursor,
            },
            ..self.status(SEARCH_LABEL@, now)
        }
    }

    /// The state after the backup command: the session waits for the
    /// snapshot.
    pub open spec fn backup(self) -> EditorView {
        EditorView { mode: ModeView::Backup { then: None }, ..self }
    }

    /// The state after the command line was opened.
    pub open spec fn command_mode(self) -> EditorView {
        EditorView { mode: ModeView::Command { buffer: COMMAND_START@ }, ..self }
    }

    /// The state after `key` was dispatched as a command.
    pub open spec fn dispatch(self, key: Key, now: u64) -> EditorView {
        match key {
            Key::Ctrl(c) => if c == 'q' {
                self.quit(now)
            } else if c == 's' {
                self.save(now)
            } else if c == 'f' {
                self.search(now)
            } else if c == 'b' {
                self.backup()
            } else if c == 'v' {
                EditorView { mode: ModeView::Pasting, ..self }
            } else if c == 'x' {
                self.command_mode()
            } else {
                self.finish(now)
            },
            Key::Char(c) => self.insert_at(self.cursor, c).move_cursor(Key::Right).finish(now),
            Key::Delete => self.delete_at_cursor().finish(now),
            Key::Backspace => if self.cursor.x > 0 || self.cursor.y > 0 {
                self.move_cursor(Key::Left).delete_at_cursor().finish(now)
            } else {
                self.finish(now)
            },
            Key::Up
            | Key::Down
            | Key::Left
            | Key::Right
            | Key::PageUp
            | Key::PageDown
            | Key::End
            | Key::Home => self.move_cursor(key).finish(now),
            _ => self.finish(now),
        }
    }

    /// The state after `key` arrived while editing: the key is counted, and
    /// dispatched unless a snapshot has come due, which it then waits for.
    pub open spec fn count_key(self, key: Key, now: u64) -> EditorView {
        let count = self.since_last_backup.saturating_add(1);
        let s = EditorView { since_last_backup: count, ..self };
        if count >= BACKUP_AT {
            EditorView { mode: ModeView::Backup { then: Some(key) }, ..s }
        } else {
            s.dispatch(key, now)
        }
    }

    /// The state after a search has looked at `key` with `query` typed.
    ///
    /// Right and Down first step off the place the cursor stands on. Then
    /// the document is searched from the cursor, backward after Left and Up
    /// and forward otherwise. A hit takes the cursor, the window follows,
    /// and the query is highlighted; without a hit, a step that was made is
    /// taken back: the cursor stands where it stood before.
    pub open spec fn search_on_key(self, key: Key, query: Seq<char>) -> EditorView {
        let s = if nudges(key) {
            self.move_cursor(Key::Right)
        } else {
            self
        };
        match found(s.document.rows, query, s.cursor, direction_after(key)) {
            Some(p) => (EditorView { cursor: p, highlighted_word: Some(query), ..s }).scroll(),
            None => self,
        }
    }

    /// The state after `key` arrived at an open prompt.
    ///
    /// The key changes the input; a search then looks at the key. A key that
    /// does not close the prompt leaves it open, with label and input as the
    /// live message. A key that closes it clears the message, and the prompt
    /// hands back its input, or nothing if the input is empty. The prompt
    /// for a file name then gives the name to the document, which waits to
    /// be saved, or reports that nothing was given. The search, if nothing
    /// was handed back, takes the cursor back to where it began, and in any
    /// case ends the highlighting.
    pub open spec fn prompt(self, key: Key, now: u64) -> EditorView {
        match self.mode {
            ModeView::SaveAs { input } => {
                let text = typed(input, key);
                if ends_prompt(key) {
                    let s = self.status(Seq::empty(), now);
                    match prompt_result(text) {
                        None => s.status(SAVE_ABORTED@, now).finish(now),
                        Some(name) => EditorView {
                            document: DocumentView { file_name: Some(name), ..s.document },
                            mode: ModeView::Saving,
                            ..s
                        },
                    }
                } else {
                    EditorView {
                        mode: ModeView::SaveAs { input: text },
                        ..self.status(SAVE_AS_LABEL@ + text, now)
                    }
                }
            },
            ModeView::Search { input, direction, origin } => {
                let text = typed(input, key);
                let s = self.search_on_key(key, text);
                if ends_prompt(key) {
                    let s = s.status(Seq::empty(), now);
                    let s = match prompt_result(text) {
                        None => (EditorView { cursor: origin, ..s }).scroll(),
                        Some(_) => s,
                    };
                    (EditorView { highlighted_word: None, ..s }).finish(now)
                } else {
                    EditorView {
                        mode: ModeView::Search {
                            input: text,
                            direction: direction_after(key),
                            origin,
                        },
                        ..s.status(SEARCH_LABEL@ + text, now)
                    }
                }
            },
            _ => self,
        }
    }

    /// The state after `key` arrived at the command line: a character is
    /// appended, after the line as it stood was shown as the live message;
    /// any other key closes the line.
    pub open spec fn echo(self, key: Key, now: u64) -> EditorView {
        match self.mode {
            ModeView::Command { buffer } => match key {
                Key::Char(c) => EditorView {
                    mode: ModeView::Command { buffer: buffer.push(c) },
                    ..self.status(buffer, now)
                },
                _ => self.finish(now),
            },
            _ => self,
        }
    }

    /// The state after a quit confirmation that was under way is given up:
    /// all of [`QUIT_TIMES`] are asked for again, and the warning is wiped.
    pub open spec fn disarm(self, now: u64) -> EditorView {
        if self.quit_times < QUIT_TIMES {
            EditorView {
                quit_times: QUIT_TIMES,
                status: StatusView { text: Seq::empty(), time: now },
                ..self
            }
        } else {
            self
        }
    }

    /// The state after `key` was pressed. A session that has ended, or that
    /// waits for something other than a key, stays as it is. Any key but
    /// the quit key while editing first gives up a quit confirmation that
    /// was under way; then the key goes to what the session is busy with.
    pub open spec fn process_keypress(self, key: Key, now: u64) -> EditorView {
        if self.should_quit {
            self
        } else {
            match self.mode {
                ModeView::Normal => if key == Key::Ctrl('q') {
                    self.count_key(key, now)
                } else {
                    self.disarm(now).count_key(key, now)
                },
                ModeView::SaveAs { .. } | ModeView::Search { .. } => self.disarm(now).prompt(
                    key,
                    now,
                ),
                ModeView::Command { .. } => self.disarm(now).echo(key, now),
                _ => self,
            }
        }
    }

    /// The state after the snapshot that the session waited for was written
    /// (`ok`) or failed. Success is reported with the snapshot's path and
    /// starts the count of keys anew. Then the key that waited is
    /// dispatched, or the backup command has run to its end.
    pub open spec fn backup_done(self, ok: bool, now: u64) -> EditorView {
        if self.should_quit {
            self
        } else {
            match self.mode {
                ModeView::Backup { then } => {
                    let s = if ok {
                        EditorView {
                            since_last_backup: 0,
                            ..self.status(BACKED_UP@ + self.backup_path(), now)
                        }
                    } else {
                        self
                    };
                    match then {
                        Some(key) => s.dispatch(key, now),
                        None => s.finish(now),
                    }
                },
                _ => self,
            }
        }
    }

    /// The state after the save that the session waited for succeeded (`ok`)
    /// or failed: the outcome is reported, and a saved document counts as
    /// unchanged.
    pub open spec fn save_done(self, ok: bool, now: u64) -> EditorView {
        if self.should_quit {
            self
        } else {
            match self.mode {
                ModeView::Saving => if ok {
                    (EditorView {
                        document: DocumentView { dirty: false, ..self.document },
                        ..self
                    }).status(SAVE_OK@, now).finish(now)
                } else {
                    self.status(ERROR_SAVING@, now).finish(now)
                },
                _ => self,
            }
        }
    }

    /// The state after the characters of `data` were put in at `origin` one
    /// by one, the last one first, each followed by a move to the right.
    pub open spec fn paste_text(self, origin: Position, data: Seq<char>) -> EditorView
        decreases data.len(),
    {
        if data.len() == 0 {
            self
        } else {
            self.insert_at(origin, data.last()).move_cursor(Key::Right).paste_text(
                origin,
                data.drop_last(),
            )
        }
    }

    /// The state after the clipboard that the session waited for was read
    /// (`data`) or could not be: its text is put in where the cursor stands,
    /// and the outcome is reported.
    pub open spec fn paste(self, data: Option<Seq<char>>, now: u64) -> EditorView {
        if self.should_quit {
            self
        } else {
            match self.mode {
                ModeView::Pasting => match data {
                    Some(text) => self.status(PASTED@, now).paste_text(self.cursor, text).finish(
                        now,
                    ),
                    None => self.status(ERROR_PASTING@, now).finish(now),
                },
                _ => self,
            }
        }
    }

    /// The state after `event`.
    pub open spec fn step(self, event: Event, now: u64) -> EditorView {
        match event {
            Event::Key(key) => self.process_keypress(key, now),
            Event::BackupDone(ok) => self.backup_done(ok, now),
            Event::SaveDone(ok) => self.save_done(ok, now),
            Event::Clipboard(data) => self.paste(data, now),
        }
    }

    /// The state after the events of `events`, each with its time, in their
    /// order.
    pub open spec fn run(self, events: Seq<(Event, u64)>) -> EditorView
        decreases events.len(),
    {
        if events.len() == 0 {
            self
        } else {
            self.run(events.drop_last()).step(events.last().0, events.last().1)
        }
    }

    /// Whether the session has no quit confirmation under way, and waits
    /// for no snapshot that the quit key waits for.
    pub open spec fn counter_full(self) -> bool {
        &&& self.quit_times == QUIT_TIMES
        &&& self.mode != (ModeView::Backup { then: Some(Key::Ctrl('q')) })
    }

    /// Whether the session waits for `event`.
    pub open spec fn expects(self, event: Event) -> bool {
        !self.should_quit && match event {
            Event::Key(_) => self.request() is ReadKey,
            Event::BackupDone(_) => self.mode is Backup,
            Event::SaveDone(_) => self.mode is Saving,
            Event::Clipboard(_) => self.mode is Pasting,
        }
    }

    /// Whether `event` brings a quit press to be dispatched: the quit key
    /// while editing with no snapshot due, or the end of the snapshot that
    /// the quit key waited for.
    pub open spec fn dispatches_quit(self, event: Event) -> bool {
        match event {
            Event::Key(key) => self.mode is Normal && key == Key::Ctrl('q'),
            Event::BackupDone(_) => self.mode == (ModeView::Backup { then: Some(Key::Ctrl('q')) }),
            _ => false,
        }
    }
}

/// A command that has run to its end leaves no quit confirmation under way:
/// after any event that the session waited for, other than a quit press, a
/// session that is back to editing asks for all of [`QUIT_TIMES`] again.
pub proof fn lemma_quit_confirmation_resets(s: EditorView, event: Event, now: u64)
    requires
        s.wf(),
        s.expects(event),
        !s.dispatches_quit(event),
        s.step(event, now).mode is Normal,
    ensures
        s.step(event, now).quit_times == QUIT_TIMES,
{
    match event {
        Event::Clipboard(Some(text)) => {
            lemma_paste_keeps_quit_times(s.status(PASTED@, now), s.cursor, text);
        },
        _ => {},
    }
}

/// Any key but a quit press leaves no quit confirmation under way: after a
/// key that the session waited for, other than the quit key while editing,
/// the session asks for all of [`QUIT_TIMES`] again, whatever it is busy
/// with afterwards.
pub proof fn lemma_key_resets_quit_confirmation(s: EditorView, key: Key, now: u64)
    requires
        s.quit_times <= QUIT_TIMES,
        s.expects(Event::Key(key)),
        !s.dispatches_quit(Event::Key(key)),
    ensures
        s.process_keypress(key, now).quit_times == QUIT_TIMES,
        s.process_keypress(key, now).counter_full(),
{
}

/// A session without a quit confirmation under way stays so through every
/// event but a press of the quit key.
pub proof fn lemma_event_keeps_counter_full(s: EditorView, event: Event, now: u64)
    requires
        s.counter_full(),
        event != Event::Key(Key::Ctrl('q')),
    ensures
        s.step(event, now).counter_full(),
{
    match event {
        Event::Clipboard(Some(text)) => {
            lemma_paste_keeps_quit_times(s.status(PASTED@, now), s.cursor, text);
        },
        _ => {},
    }
}

/// After any run of events that begins with a key that the session waited
/// for and holds no press of the quit key, the session asks for all of
/// [`QUIT_TIMES`] again.
pub proof fn lemma_run_without_quit_key(s: EditorView, events: Seq<(Event, u64)>)
    requires
        s.quit_times <= QUIT_TIMES,
        events.len() > 0,
        events[0].0 is Key,
        s.expects(events[0].0),
        forall|i: int| 0 <= i < events.len() ==> (#[trigger] events[i]).0 != Event::Key(
            Key::Ctrl('q'),
        ),
    ensures
        s.run(events).quit_times == QUIT_TIMES,
        s.run(events).counter_full(),
    decreases events.len(),
{
    let head = events.drop_last();
    let last = events.last();
    assert(last == events[events.len() - 1]);
    if head.len() == 0 {
        assert(s.run(head) == s);
        assert(last == events[0]);
        lemma_key_resets_quit_confirmation(s, last.0->Key_0, last.1);
    } else {
        assert(head[0] == events[0]);
        assert forall|i: int| 0 <= i < head.len() implies (#[trigger] head[i]).0 != Event::Key(
            Key::Ctrl('q'),
        ) by {
            assert(head[i] == events[i]);
        }
        lemma_run_without_quit_key(s, head);
        lemma_event_keeps_counter_full(s.run(head), last.0, last.1);
    }
}

/// Pasting changes the document and the cursor, and nothing else.
pub proof fn lemma_paste_keeps_quit_times(s: EditorView, origin: Position, data: Seq<char>)
    ensures
        s.paste_text(origin, data).quit_times == s.quit_times,
        s.paste_text(origin, data).mode == s.mode,
        s.paste_text(origin, data).should_quit == s.should_quit,
    decreases data.len(),
{
    if data.len() > 0 {
        lemma_paste_keeps_quit_times(
            s.insert_at(origin, data.last()).move_cursor(Key::Right),
            origin,
            data.drop_last(),
        );
    }
}

/// Following the cursor twice is following it once, provided that the text
/// area is at least one cell wide and one cell high.
pub proof fn lemma_scroll_twice(s: EditorView)
    requires
        s.size.width > 0,
        s.size.height > 0,
    ensures
        s.scroll().scroll() == s.scroll(),
        shows(s.scroll().cursor, s.scroll().offset, s.size),
{
    lemma_scroll_idempotent(s.cursor, s.offset, s.size);
    lemma_scroll_shows_cursor(s.cursor, s.offset, s.size);
}

/// A move leaves a session as sound as it was: the cursor stays on the
/// document.
pub proof fn lemma_move_keeps_wf(s: EditorView, key: Key)
    requires
        s.wf(),
    ensures
        s.move_cursor(key).wf(),
{
    lemma_move_stays_in_bounds(s.cursor, key, s.document.rows, s.size.height as usize);
}

/// Pasting text without line breaks into a row behind which the cursor
/// stands, `k` columns after `origin`, puts the text into the row at
/// `origin`, in reading order, and takes the cursor as many columns on as the
/// text is long. No other row changes.
pub proof fn lemma_paste_into_row(s: EditorView, origin: Position, data: Seq<char>, k: nat)
    requires
        origin.y < s.document.rows.len(),
        origin.x + k <= s.document.rows[origin.y as int].len(),
        s.document.rows[origin.y as int].len() + data.len() <= usize::MAX,
        s.cursor == (Position { x: (origin.x + k) as usize, y: origin.y }),
        forall|i: int| 0 <= i < data.len() ==> data[i] != '\n',
    ensures
        s.paste_text(origin, data).document.rows == s.document.rows.update(
            origin.y as int,
            s.document.rows[origin.y as int].take(origin.x as int) + data
                + s.document.rows[origin.y as int].skip(origin.x as int),
        ),
        s.paste_text(origin, data).cursor == (Position {
            x: (origin.x + k + data.len()) as usize,
            y: origin.y,
        }),
    decreases data.len(),
{
    let y = origin.y as int;
    let x = origin.x as int;
    let rows = s.document.rows;
    let row = rows[y];
    if data.len() == 0 {
        assert(row.take(x) + data + row.skip(x) =~= row);
        assert(rows.update(y, row) =~= rows);
    } else {
        let c = data.last();
        let rest = data.drop_last();
        let row1 = row.insert(x, c);
        let s1 = s.insert_at(origin, c);
        assert(s1.document.rows == rows.update(y, row1));
        let s2 = s1.move_cursor(Key::Right);
        assert(s2.cursor == (Position { x: (origin.x + k + 1) as usize, y: origin.y }));
        assert(s2.document.rows == rows.update(y, row1));
        lemma_paste_into_row(s2, origin, rest, k + 1);
        assert(row1.take(x) =~= row.take(x));
        assert(row1.skip(x) =~= seq![c] + row.skip(x));
        assert(data =~= rest + seq![c]);
        assert(row1.take(x) + rest + row1.skip(x) =~= row.take(x) + data + row.skip(x));
        assert(rows.update(y, row1).update(y, row.take(x) + data + row.skip(x)) =~= rows.update(
            y,
            row.take(x) + data + row.skip(x),
        ));
    }
}

/// Pasting text without line breaks at the cursor, on a row of the document,
/// puts the text in there, in reading order, and leaves the cursor behind
/// the text.
pub proof fn lemma_paste_at_cursor(s: EditorView, data: Seq<char>)
    requires
        s.cursor.y < s.document.rows.len(),
        s.cursor.x <= s.document.rows[s.cursor.y as int].len(),
        s.document.rows[s.cursor.y as int].len() + data.len() <= usize::MAX,
        forall|i: int| 0 <= i < data.len() ==> data[i] != '\n',
    ensures
        s.paste_text(s.cursor, data).document.rows == s.document.rows.update(
            s.cursor.y as int,
            s.document.rows[s.cursor.y as int].take(s.cursor.x as int) + data
                + s.document.rows[s.cursor.y as int].skip(s.cursor.x as int),
        ),
        s.paste_text(s.cursor, data).cursor == (Position {
            x: (s.cursor.x + data.len()) as usize,
            y: s.cursor.y,
        }),
{
    lemma_paste_into_row(s, s.cursor, data, 0);
}

/// Pasting text without line breaks on the row after the last makes the
/// text the new last row, and leaves the cursor behind the text.
pub proof fn lemma_paste_after_last_row(s: EditorView, data: Seq<char>)
    requires
        s.cursor == (Position { x: 0, y: s.document.rows.len() as usize }),
        s.document.rows.len() < usize::MAX,
        0 < data.len() <= usize::MAX,
        forall|i: int| 0 <= i < data.len() ==> data[i] != '\n',
    ensures
        s.paste_text(s.cursor, data).document.rows == s.document.rows.push(data),
        s.paste_text(s.cursor, data).cursor == (Position {
            x: data.len() as usize,
            y: s.cursor.y,
        }),
{
    let rows = s.document.rows;
    let c = data.last();
    let rest = data.drop_last();
    let s1 = s.insert_at(s.cursor, c);
    assert(s1.document.rows == rows.push(seq![c]));
    let s2 = s1.move_cursor(Key::Right);
    assert(s2.cursor == (Position { x: 1, y: s.cursor.y }));
    lemma_paste_into_row(s2, s.cursor, rest, 1);
    let y = s.cursor.y as int;
    assert(seq![c].take(0) + rest + seq![c].skip(0) =~= data);
    assert(rows.push(seq![c]).update(y, data) =~= rows.push(data));
}

/// A search that is cancelled takes the cursor back to where it stood when
/// the search began.
pub proof fn lemma_cancelled_search_restores_cursor(s: EditorView, now: u64)
    requires
        !s.should_quit,
        s.mode is Search,
    ensures
        s.process_keypress(Key::Esc, now).cursor == s.mode->Search_origin,
        s.process_keypress(Key::Esc, now).highlighted_word is None,
        s.process_keypress(Key::Esc, now).mode is Normal,
{
}

/// A prompt for a file name that is cancelled gives the document no name.
pub proof fn lemma_cancelled_save_keeps_name(s: EditorView, now: u64)
    requires
        !s.should_quit,
        s.mode is SaveAs,
    ensures
        s.process_keypress(Key::Esc, now).document == s.document,
        s.process_keypress(Key::Esc, now).mode is Normal,
{
}

} // verus!
