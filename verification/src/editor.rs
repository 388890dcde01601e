//! The editing session: its state, and the transitions that key presses and
//! the results of outside work cause.

use crate::document::{views, Document, DocumentView};
use crate::key::Key;
use crate::model::{
    direction_after, initial, lemma_key_resets_quit_confirmation, lemma_quit_confirmation_resets,
    nudges, EditorView, Event, ModeView, RequestView, BACKED_UP, BACKUP_AT, BACKUP_SUFFIX, CACHE_FILE,
    CANNOT_OPEN, COMMAND_START, ERROR_PASTING, ERROR_SAVING, HELP, PASTED, QUIT_TIMES,
    QUIT_WARNING_HEAD, QUIT_WARNING_TAIL, SAVE_ABORTED, SAVE_AS_LABEL, SAVE_OK, SEARCH_LABEL,
};
use crate::prompt::prompt_key;
use crate::status::{stamp, StatusMessage};
use crate::text::{chars_of, copy_of, push_all, push_decimal, push_str};
use crate::document::fits;
use crate::viewport::{in_bounds, lemma_move_stays_in_bounds, lemma_scroll_shows_cursor, shows};
use vstd::prelude::*;

verus! {

/// The way an incremental search walks through the document.
#[derive(PartialEq, Eq, Copy, Clone, Debug, Structural)]
pub enum SearchDirection {
    /// Towards the end of the document.
    Forward,
    /// Towards the start of the document.
    Backward,
}

/// A zero-based column (`x`) and row (`y`) in document coordinates.
#[derive(PartialEq, Eq, Copy, Clone, Debug, Structural)]
pub struct Position {
    pub x: usize,
    pub y: usize,
}

impl Default for Position {
    /// The origin.
    fn default() -> (p: Position)
        ensures
            p == (Position { x: 0, y: 0 }),
    {
        Position { x: 0, y: 0 }
    }
}

/// The extent of the text area of the terminal, in cells.
#[derive(PartialEq, Eq, Copy, Clone, Debug, Structural)]
pub struct Size {
    pub width: u16,
    pub height: u16,
}

/// What the session is busy with.
#[derive(Clone, Debug, PartialEq, Eq)]
pub enum Mode {
    /// Editing: keys are commands.
    Normal,
    /// Asking for a file name to save under; `input` has been typed.
    SaveAs { input: Vec<char> },
    /// Searching for `input` as it is typed; `origin` is where the cursor
    /// stood when the search began.
    Search { input: Vec<char>, direction: SearchDirection, origin: Position },
    /// Echoing a command line.
    Command { buffer: Vec<char> },
    /// Waiting for a snapshot to be written; `then` is the key that waits
    /// for it.
    Backup { then: Option<Key> },
    /// Waiting for the document to be saved.
    Saving,
    /// Waiting for the clipboard.
    Pasting,
}

impl View for Mode {
    type V = ModeView;

    open spec fn view(&self) -> ModeView {
        match *self {
            Mode::Normal => ModeView::Normal,
            Mode::SaveAs { input } => ModeView::SaveAs { input: input@ },
            Mode::Search { input, direction, origin } => ModeView::Search {
                input: input@,
                direction,
                origin,
            },
            Mode::Command { buffer } => ModeView::Command { buffer: buffer@ },
            Mode::Backup { then } => ModeView::Backup { then },
            Mode::Saving => ModeView::Saving,
            Mode::Pasting => ModeView::Pasting,
        }
    }
}

/// The outside work that the session waits for. The caller does it and
/// hands the outcome to the session, which answers with the next request.
#[derive(Clone, Debug, PartialEq, Eq)]
pub enum Request {
    /// Show the session and read a key, for [`Editor::process_keypress`].
    ReadKey,
    /// Write `lines` one after the other to the file `path`, as a snapshot
    /// for recovery, for [`Editor::backup_done`].
    WriteBackup { path: Vec<char>, lines: Vec<Vec<char>> },
    /// Write `lines` one after the other to the file `path`, the document's
    /// own, for [`Editor::save_done`].
    SaveDocument { path: Vec<char>, lines: Vec<Vec<char>> },
    /// Read the clipboard, for [`Editor::paste`].
    ReadClipboard,
    /// End the session.
    Quit,
}

impl View for Request {
    type V = RequestView;

    open spec fn view(&self) -> RequestView {
        match *self {
            Request::ReadKey => RequestView::ReadKey,
            Request::WriteBackup { path, lines } => RequestView::WriteBackup {
                path: path@,
                lines: views(lines@),
            },
            Request::SaveDocument { path, lines } => RequestView::SaveDocument {
                path: path@,
                lines: views(lines@),
            },
            Request::ReadClipboard => RequestView::ReadClipboard,
            Request::Quit => RequestView::Quit,
        }
    }
}

/// What a session starts on.
#[derive(Clone, Debug)]
pub enum Startup {
    /// No file was named: an empty document without a name.
    NoFile,
    /// The named file was read into this document.
    Opened(Document),
    /// The file of this name could not be read.
    Failed(Vec<char>),
}

/// The view of an optional text.
pub open spec fn opt_view(text: Option<Vec<char>>) -> Option<Seq<char>> {
    match text {
        Some(t) => Some(t@),
        None => None,
    }
}

/// An editing session.
#[derive(Clone, Debug)]
pub struct Editor {
    should_quit: bool,
    size: Size,
    cursor_position: Position,
    offset: Position,
    document: Document,
    status_message: StatusMessage,
    quit_times: u8,
    highlighted_word: Option<Vec<char>>,
    since_last_backup: u32,
    editor_cache: Vec<char>,
    init_time: u64,
    mode: Mode,
}

impl View for Editor {
    type V = EditorView;

    closed spec fn view(&self) -> EditorView {
        EditorView {
            should_quit: self.should_quit,
            size: self.size,
            cursor: self.cursor_position,
            offset: self.offset,
            document: self.document@,
            status: self.status_message@,
            quit_times: self.quit_times,
            highlighted_word: opt_view(self.highlighted_word),
            since_last_backup: self.since_last_backup,
            cache_file: self.editor_cache@,
            session_start: self.init_time,
            mode: self.mode@,
        }
    }
}

impl Editor {
    /// Whether the session is in a state that it can be in. Every session
    /// is, from [`Editor::default`] on.
    pub open spec fn wf(&self) -> bool {
        self@.wf()
    }

    /// A session that begins at `now`, in milliseconds, with a text area of
    /// `size`. It shows the key bindings, or, where the file that was named
    /// could not be read, a warning that names it.
    pub fn default(startup: Startup, size: Size, now: u64) -> (editor: Editor)
        ensures
            editor.wf(),
            editor@ == match startup {
                Startup::NoFile => initial(
                    DocumentView { rows: Seq::empty(), file_name: None, dirty: false },
                    HELP@,
                    size,
                    now,
                ),
                Startup::Opened(document) => initial(document@, HELP@, size, now),
                Startup::Failed(name) => initial(
                    DocumentView { rows: Seq::empty(), file_name: None, dirty: false },
                    CANNOT_OPEN@ + name@,
                    size,
                    now,
                ),
            },
    {
        let mut initial_status = chars_of(HELP);
        let document = match startup {
            Startup::NoFile => Document::default(),
            Startup::Opened(document) => document,
            Startup::Failed(name) => {
                initial_status = chars_of(CANNOT_OPEN);
                push_all(&mut initial_status, &name);
                Document::default()
            },
        };
        proof {
            document.lemma_fits();
        }
        Editor {
            should_quit: false,
            size,
            document,
            cursor_position: Position { x: 0, y: 0 },
            offset: Position { x: 0, y: 0 },
            status_message: StatusMessage::from(initial_status, now),
            quit_times: QUIT_TIMES,
            highlighted_word: None,
            since_last_backup: 0,
            editor_cache: chars_of(CACHE_FILE),
            init_time: now,
            mode: Mode::Normal,
        }
    }

    /// Whether the session has ended.
    pub fn should_quit(&self) -> (b: bool)
        ensures
            b == self@.should_quit,
    {
        self.should_quit
    }

    /// The extent of the text area.
    pub fn size(&self) -> (size: Size)
        ensures
            size == self@.size,
    {
        self.size
    }

    /// Where the cursor stands in the document.
    pub fn cursor_position(&self) -> (p: Position)
        ensures
            p == self@.cursor,
    {
        self.cursor_position
    }

    /// The document position shown in the top left cell.
    pub fn offset(&self) -> (p: Position)
        ensures
            p == self@.offset,
    {
        self.offset
    }

    /// The document.
    pub fn document(&self) -> (document: &Document)
        ensures
            document@ == self@.document,
    {
        &self.document
    }

    /// The live message.
    pub fn status_message(&self) -> (message: &StatusMessage)
        ensures
            message@ == self@.status,
    {
        &self.status_message
    }

    /// How many quit presses a changed document still asks for.
    pub fn quit_times(&self) -> (n: u8)
        ensures
            n == self@.quit_times,
    {
        self.quit_times
    }

    /// The search term to highlight, if there is one.
    pub fn highlighted_word(&self) -> (word: Option<&Vec<char>>)
        ensures
            match word {
                Some(w) => self@.highlighted_word == Some(w@),
                None => self@.highlighted_word is None,
            },
    {
        self.highlighted_word.as_ref()
    }

    /// How many keys were processed since the last snapshot.
    pub fn since_last_backup(&self) -> (n: u32)
        ensures
            n == self@.since_last_backup,
    {
        self.since_last_backup
    }

    /// What the session is busy with.
    pub fn mode(&self) -> (mode: &Mode)
        ensures
            mode@ == self@.mode,
    {
        &self.mode
    }

    /// The file that a snapshot goes to.
    pub fn backup_path(&self) -> (path: Vec<char>)
        ensures
            path@ == self@.backup_path(),
    {
        match self.document.file_name() {
            Some(name) => {
                let mut path = copy_of(name);
                push_str(&mut path, BACKUP_SUFFIX);
                path
            },
            None => copy_of(&self.editor_cache),
        }
    }

    /// The outside work that the session waits for.
    pub fn pending(&self) -> (request: Request)
        requires
            self.wf(),
        ensures
            request@ == self@.request(),
    {
        if self.should_quit {
            return Request::Quit;
        }
        match &self.mode {
            Mode::Backup { .. } => Request::WriteBackup {
                path: self.backup_path(),
                lines: self.document.snapshot(),
            },
            Mode::Saving => {
                let path = match self.document.file_name() {
                    Some(name) => copy_of(name),
                    None => Vec::new(),
                };
                Request::SaveDocument { path, lines: self.document.snapshot() }
            },
            Mode::Pasting => Request::ReadClipboard,
            _ => Request::ReadKey,
        }
    }

    /// Gives the text area the extent `size`.
    pub fn resize(&mut self, size: Size)
        requires
            old(self).wf(),
        ensures
            final(self).wf(),
            final(self)@ == (EditorView { size, ..old(self)@ }),
    {
        self.size = size;
    }

    /// Emits `msg` at `now`: it replaces the live message.
    pub fn status(&mut self, msg: &Vec<char>, now: u64)
        requires
            old(self).wf(),
        ensures
            final(self).wf(),
            final(self)@ == old(self)@.status(msg@, now),
    {
        self.status_message = StatusMessage::from(stamp(msg, self.init_time, now), now);
    }

    /// Lets the window follow the cursor.
    pub fn scroll(&mut self)
        requires
            old(self).wf(),
        ensures
            final(self).wf(),
            final(self)@ == old(self)@.scroll(),
            old(self)@.size.width > 0 && old(self)@.size.height > 0 ==> shows(
                final(self)@.cursor,
                final(self)@.offset,
                final(self)@.size,
            ),
    {
        proof {
            if self@.size.width > 0 && self@.size.height > 0 {
                lemma_scroll_shows_cursor(self@.cursor, self@.offset, self@.size);
            }
        }
        self.offset = crate::viewport::scroll(self.cursor_position, self.offset, self.size);
    }

    /// Moves the cursor as `key` says.
    pub fn move_cursor(&mut self, key: Key)
        requires
            old(self).wf(),
        ensures
            final(self).wf(),
            final(self)@ == old(self)@.move_cursor(key),
    {
        self.step_cursor(key);
    }

    /// Opens the prompt for a file name, or, for a document that has one,
    /// makes the session wait for the document to be saved.
    pub fn save(&mut self, now: u64)
        requires
            old(self).wf(),
        ensures
            final(self).wf(),
            final(self)@ == old(self)@.save(now),
    {
        if self.document.file_name().is_some() {
            self.mode = Mode::Saving;
        } else {
            let label = chars_of(SAVE_AS_LABEL);
            self.status(&label, now);
            self.mode = Mode::SaveAs { input: Vec::new() };
        }
    }

    /// Opens the search prompt.
    pub fn search(&mut self, now: u64)
        requires
            old(self).wf(),
        ensures
            final(self).wf(),
            final(self)@ == old(self)@.search(now),
    {
        let label = chars_of(SEARCH_LABEL);
        self.status(&label, now);
        self.mode = Mode::Search {
            input: Vec::new(),
            direction: SearchDirection::Forward,
            origin: self.cursor_position,
        };
    }

    /// Makes the session wait for a snapshot to be written.
    pub fn backup(&mut self)
        requires
            old(self).wf(),
        ensures
            final(self).wf(),
            final(self)@ == old(self)@.backup(),
    {
        self.mode = Mode::Backup { then: None };
    }

    /// Opens the command line.
    pub fn command_mode(&mut self)
        requires
            old(self).wf(),
        ensures
            final(self).wf(),
            final(self)@ == old(self)@.command_mode(),
    {
        self.mode = Mode::Command { buffer: chars_of(COMMAND_START) };
    }

    /// Lets a search look at `key`, with `query` typed: see
    /// [`EditorView::search_on_key`].
    pub fn search_on_key(&mut self, key: Key, query: &Vec<char>)
        requires
            old(self).wf(),
        ensures
            final(self).wf(),
            final(self)@ == old(self)@.search_on_key(key, query@),
    {
        let before = self.cursor_position;
        if nudge_of(key) {
            self.move_cursor(Key::Right);
        }
        match self.document.find(query, &self.cursor_position, direction_of(key)) {
            Some(position) => {
                self.cursor_position = position;
                self.highlighted_word = Some(copy_of(query));
                self.scroll();
            },
            None => {
                self.cursor_position = before;
            },
        }
    }

    /// Hands `key` to the open prompt: see [`EditorView::prompt`]. Without
    /// an open prompt nothing happens.
    pub fn prompt(&mut self, key: Key, now: u64)
        requires
            old(self).wf(),
        ensures
            final(self).wf(),
            final(self)@ == old(self)@.prompt(key, now),
    {
        let mut mode = Mode::Normal;
        core::mem::swap(&mut self.mode, &mut mode);
        match mode {
            Mode::SaveAs { input } => {
                let mut input = input;
                let done = prompt_key(&mut input, key);
                if done {
                    self.status(&Vec::new(), now);
                    if input.len() == 0 {
                        self.status(&chars_of(SAVE_ABORTED), now);
                        self.finish(now);
                    } else {
                        self.document.set_file_name(input);
                        self.mode = Mode::Saving;
                    }
                } else {
                    let mut label = chars_of(SAVE_AS_LABEL);
                    push_all(&mut label, &input);
                    self.status(&label, now);
                    self.mode = Mode::SaveAs { input };
                }
            },
            Mode::Search { input, direction, origin } => {
                let mut input = input;
                let done = prompt_key(&mut input, key);
                self.search_on_key(key, &input);
                if done {
                    self.status(&Vec::new(), now);
                    if input.len() == 0 {
                        self.cursor_position = origin;
                        self.scroll();
                    }
                    self.highlighted_word = None;
                    self.finish(now);
                } else {
                    let mut label = chars_of(SEARCH_LABEL);
                    push_all(&mut label, &input);
                    self.status(&label, now);
                    self.mode = Mode::Search { input, direction: direction_of(key), origin };
                }
            },
            other => {
                self.mode = other;
            },
        }
    }

    /// Processes the key press `key` at `now`, in milliseconds, and says
    /// what the session waits for next: see
    /// [`EditorView::process_keypress`].
    pub fn process_keypress(&mut self, key: Key, now: u64) -> (request: Request)
        requires
            old(self).wf(),
        ensures
            final(self).wf(),
            final(self)@ == old(self)@.process_keypress(key, now),
            request@ == final(self)@.request(),
            old(self)@.expects(Event::Key(key)) && !old(self)@.dispatches_quit(Event::Key(key))
                ==> final(self)@.quit_times == QUIT_TIMES,
    {
        proof {
            if self@.expects(Event::Key(key)) && !self@.dispatches_quit(Event::Key(key)) {
                lemma_key_resets_quit_confirmation(self@, key, now);
            }
        }
        if !self.should_quit {
            let (editing, prompting, echoing) = match &self.mode {
                Mode::Normal => (true, false, false),
                Mode::SaveAs { .. } => (false, true, false),
                Mode::Search { .. } => (false, true, false),
                Mode::Command { .. } => (false, false, true),
                _ => (false, false, false),
            };
            if editing {
                if !is_quit_key(key) {
                    self.disarm(now);
                }
                self.count_key(key, now);
            } else if prompting {
                self.disarm(now);
                self.prompt(key, now);
            } else if echoing {
                self.disarm(now);
                self.echo(key, now);
            }
        }
        self.pending()
    }

    /// Takes the outcome of the snapshot that the session waited for,
    /// written (`ok`) or failed, and says what the session waits for next:
    /// see [`EditorView::backup_done`].
    pub fn backup_done(&mut self, ok: bool, now: u64) -> (request: Request)
        requires
            old(self).wf(),
        ensures
            final(self).wf(),
            final(self)@ == old(self)@.backup_done(ok, now),
            request@ == final(self)@.request(),
            old(self)@.expects(Event::BackupDone(ok)) && !old(self)@.dispatches_quit(
                Event::BackupDone(ok),
            ) && final(self)@.mode is Normal ==> final(self)@.quit_times == QUIT_TIMES,
    {
        proof {
            if self@.expects(Event::BackupDone(ok)) && !self@.dispatches_quit(Event::BackupDone(ok))
                && self@.step(Event::BackupDone(ok), now).mode is Normal {
                lemma_quit_confirmation_resets(self@, Event::BackupDone(ok), now);
            }
        }
        if !self.should_quit {
            let waiting: Option<Option<Key>> = match &self.mode {
                Mode::Backup { then } => Some(*then),
                _ => None,
            };
            match waiting {
                Some(then) => {
                    if ok {
                        let mut msg = chars_of(BACKED_UP);
                        let path = self.backup_path();
                        push_all(&mut msg, &path);
                        self.status(&msg, now);
                        self.since_last_backup = 0;
                    }
                    match then {
                        Some(key) => self.dispatch(key, now),
                        None => self.finish(now),
                    }
                },
                None => {},
            }
        }
        self.pending()
    }

    /// Takes the outcome of the save that the session waited for, done
    /// (`ok`) or failed, and says what the session waits for next: see
    /// [`EditorView::save_done`].
    pub fn save_done(&mut self, ok: bool, now: u64) -> (request: Request)
        requires
            old(self).wf(),
        ensures
            final(self).wf(),
            final(self)@ == old(self)@.save_done(ok, now),
            request@ == final(self)@.request(),
    {
        let saving = match &self.mode {
            Mode::Saving => true,
            _ => false,
        };
        if !self.should_quit && saving {
            if ok {
                self.document.mark_saved();
                self.status(&chars_of(SAVE_OK), now);
            } else {
                self.status(&chars_of(ERROR_SAVING), now);
            }
            self.finish(now);
        }
        self.pending()
    }

    /// Takes the text of the clipboard that the session waited for, or the
    /// news that it could not be read, and says what the session waits for
    /// next: see [`EditorView::paste`].
    pub fn paste(&mut self, data: Option<Vec<char>>, now: u64) -> (request: Request)
        requires
            old(self).wf(),
        ensures
            final(self).wf(),
            final(self)@ == old(self)@.paste(opt_view(data), now),
            request@ == final(self)@.request(),
    {
        let pasting = match &self.mode {
            Mode::Pasting => true,
            _ => false,
        };
        if !self.should_quit && pasting {
            match data {
                Some(text) => {
                    self.status(&chars_of(PASTED), now);
                    let origin = self.cursor_position;
                    let ghost start = self@;
                    let mut i: usize = text.len();
                    assert(text@.take(i as int) =~= text@);
                    while i > 0
                        invariant
                            i <= text.len(),
                            self.wf(),
                            self@.mode is Pasting,
                            in_bounds(origin, self@.document.rows),
                            self@.paste_text(origin, text@.take(i as int)) == start.paste_text(
                                origin,
                                text@,
                            ),
                        decreases i,
                    {
                        i -= 1;
                        assert(text@.take(i + 1).last() == text@[i as int]);
                        assert(text@.take(i + 1).drop_last() =~= text@.take(i as int));
                        self.document.insert(&origin, text[i]);
                        proof {
                            self.document.lemma_fits();
                        }
                        self.step_cursor(Key::Right);
                    }
                    self.finish(now);
                },
                None => {
                    self.status(&chars_of(ERROR_PASTING), now);
                    self.finish(now);
                },
            }
        }
        self.pending()
    }

    fn step_cursor(&mut self, key: Key)
        requires
            fits(old(self)@.document.rows),
            old(self)@.cursor.y <= old(self)@.document.rows.len(),
        ensures
            final(self)@ == old(self)@.move_cursor(key),
            in_bounds(final(self)@.cursor, final(self)@.document.rows),
    {
        proof {
            lemma_move_stays_in_bounds(
                self@.cursor,
                key,
                self@.document.rows,
                self@.size.height as usize,
            );
        }
        self.cursor_position = crate::viewport::move_cursor(
            self.cursor_position,
            key,
            &self.document,
            self.size.height as usize,
        );
    }

    fn delete_at_cursor(&mut self)
        requires
            old(self).wf(),
            !(old(self)@.mode is Search),
        ensures
            final(self).wf(),
            final(self)@ == old(self)@.delete_at_cursor(),
    {
        let at = self.cursor_position;
        self.document.delete(&at);
        proof {
            self.document.lemma_fits();
        }
    }

    fn disarm(&mut self, now: u64)
        requires
            old(self).wf(),
        ensures
            final(self).wf(),
            final(self)@ == old(self)@.disarm(now),
    {
        if self.quit_times < QUIT_TIMES {
            self.quit_times = QUIT_TIMES;
            self.status_message = StatusMessage::from(Vec::new(), now);
        }
    }

    fn finish(&mut self, now: u64)
        requires
            old(self).wf(),
        ensures
            final(self).wf(),
            final(self)@ == old(self)@.finish(now),
    {
        self.scroll();
        if self.quit_times < QUIT_TIMES {
            self.quit_times = QUIT_TIMES;
            self.status_message = StatusMessage::from(Vec::new(), now);
        }
        self.mode = Mode::Normal;
    }

    fn quit(&mut self, now: u64)
        requires
            old(self).wf(),
        ensures
            final(self).wf(),
            final(self)@ == old(self)@.quit(now),
    {
        if self.quit_times > 0 && self.document.is_dirty() {
            self.quit_times = self.quit_times - 1;
            let mut warning = chars_of(QUIT_WARNING_HEAD);
            push_decimal(&mut warning, self.quit_times as u64);
            push_str(&mut warning, QUIT_WARNING_TAIL);
            self.status(&warning, now);
            self.should_quit = self.quit_times == 0;
            self.mode = Mode::Normal;
        } else {
            self.should_quit = true;
            self.finish(now);
        }
    }

    fn dispatch(&mut self, key: Key, now: u64)
        requires
            old(self).wf(),
            !(old(self)@.mode is Search),
        ensures
            final(self).wf(),
            final(self)@ == old(self)@.dispatch(key, now),
    {
        match key {
            Key::Ctrl(c) => {
                if c == 'q' {
                    self.quit(now);
                } else if c == 's' {
                    self.save(now);
                } else if c == 'f' {
                    self.search(now);
                } else if c == 'b' {
                    self.backup();
                } else if c == 'v' {
                    self.mode = Mode::Pasting;
                } else if c == 'x' {
                    self.command_mode();
                } else {
                    self.finish(now);
                }
            },
            Key::Char(c) => {
                let at = self.cursor_position;
                self.document.insert(&at, c);
                proof {
                    self.document.lemma_fits();
                }
                self.step_cursor(Key::Right);
                self.finish(now);
            },
            Key::Delete => {
                self.delete_at_cursor();
                self.finish(now);
            },
            Key::Backspace => {
                if self.cursor_position.x > 0 || self.cursor_position.y > 0 {
                    self.move_cursor(Key::Left);
                    self.delete_at_cursor();
                }
                self.finish(now);
            },
            Key::Up
            | Key::Down
            | Key::Left
            | Key::Right
            | Key::PageUp
            | Key::PageDown
            | Key::End
            | Key::Home => {
                self.move_cursor(key);
                self.finish(now);
            },
            _ => {
                self.finish(now);
            },
        }
    }

    fn count_key(&mut self, key: Key, now: u64)
        requires
            old(self).wf(),
            old(self)@.mode is Normal,
        ensures
            final(self).wf(),
            final(self)@ == old(self)@.count_key(key, now),
    {
        self.since_last_backup = self.since_last_backup.saturating_add(1);
        if self.since_last_backup >= BACKUP_AT {
            self.mode = Mode::Backup { then: Some(key) };
        } else {
            self.dispatch(key, now);
        }
    }

    fn echo(&mut self, key: Key, now: u64)
        requires
            old(self).wf(),
        ensures
            final(self).wf(),
            final(self)@ == old(self)@.echo(key, now),
    {
        let mut mode = Mode::Normal;
        core::mem::swap(&mut self.mode, &mut mode);
        match mode {
            Mode::Command { buffer } => match key {
                Key::Char(c) => {
                    self.status(&buffer, now);
                    let mut buffer = buffer;
                    buffer.push(c);
                    self.mode = Mode::Command { buffer };
                },
                _ => {
                    self.finish(now);
                },
            },
            other => {
                self.mode = other;
            },
        }
    }
}

/// Tells whether `key` is the quit key.
pub fn is_quit_key(key: Key) -> (b: bool)
    ensures
        b == (key == Key::Ctrl('q')),
{
    match key {
        Key::Ctrl(c) => c == 'q',
        _ => false,
    }
}

/// Computes the direction in which a search continues after `key`.
pub fn direction_of(key: Key) -> (direction: SearchDirection)
    ensures
        direction == direction_after(key),
{
    match key {
        Key::Left | Key::Up => SearchDirection::Backward,
        _ => SearchDirection::Forward,
    }
}

/// Tells whether `key` makes a search step over the place it stands on.
pub fn nudge_of(key: Key) -> (b: bool)
    ensures
        b == nudges(key),
{
    match key {
        Key::Right | Key::Down => true,
        _ => false,
    }
}

} // verus!
