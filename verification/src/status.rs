//! The status channel: one message at a time, shown for a while.

use crate::text::{decimal, push_all, push_decimal};
use vstd::prelude::*;

verus! {

/// How long a message stays visible, in milliseconds.
pub const STATUS_VISIBLE_MS: u64 = 5000;

/// What a [`StatusMessage`] holds: its text and the time it was made at.
pub struct StatusView {
    pub text: Seq<char>,
    pub time: u64,
}

/// A message for the user, with the time it was made at, in milliseconds.
#[derive(Clone, Debug, PartialEq, Eq)]
pub struct StatusMessage {
    pub text: Vec<char>,
    pub time: u64,
}

impl View for StatusMessage {
    type V = StatusView;

    open spec fn view(&self) -> StatusView {
        StatusView { text: self.text@, time: self.time }
    }
}

/// Whether a message made at `time` is visible at `now`: until
/// [`STATUS_VISIBLE_MS`] have passed since it was made.
pub open spec fn visible(time: u64, now: u64) -> bool {
    now - time < STATUS_VISIBLE_MS
}

/// The text of a message `msg` emitted at `now` in a session that began at
/// `session_start`: the message behind the whole seconds that the session
/// has lasted, in square brackets; and the bare message where the clock
/// shows a time before the session began.
pub open spec fn stamped(msg: Seq<char>, session_start: u64, now: u64) -> Seq<char> {
    if now >= session_start {
        seq!['['] + decimal(((now - session_start) / 1000) as nat) + seq![']', ' '] + msg
    } else {
        msg
    }
}

impl StatusMessage {
    /// The message `message`, made at `now`.
    pub fn from(message: Vec<char>, now: u64) -> (m: StatusMessage)
        ensures
            m@ == (StatusView { text: message@, time: now }),
    {
        StatusMessage { time: now, text: message }
    }

    /// Whether the message is visible at `now`.
    pub fn is_visible(&self, now: u64) -> (b: bool)
        ensures
            b == visible(self@.time, now),
    {
        now < self.time || now - self.time < STATUS_VISIBLE_MS
    }
}

/// Builds the text of a message `msg` emitted at `now` in a session that
/// began at `session_start`.
pub fn stamp(msg: &Vec<char>, session_start: u64, now: u64) -> (text: Vec<char>)
    ensures
        text@ == stamped(msg@, session_start, now),
{
    let mut text: Vec<char> = Vec::new();
    if now >= session_start {
        text.push('[');
        push_decimal(&mut text, (now - session_start) / 1000);
        text.push(']');
        text.push(' ');
        push_all(&mut text, msg);
        assert(text@ =~= stamped(msg@, session_start, now));
    } else {
        push_all(&mut text, msg);
        assert(text@ =~= msg@);
    }
    text
}

} // verus!
