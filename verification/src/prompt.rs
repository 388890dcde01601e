//! The input line of a prompt: how each key changes what has been typed.

use crate::key::Key;
use crate::text::{char_is_control, is_control};
use vstd::prelude::*;

verus! {

/// Whether `key` closes a prompt: Enter accepts, Escape cancels.
pub open spec fn ends_prompt(key: Key) -> bool {
    match key {
        Key::Char(c) => c == '\n',
        Key::Esc => true,
        _ => false,
    }
}

/// The input of a prompt after `key`, where it was `input` before.
///
/// Backspace takes the last character away, Escape takes all of them away,
/// a character that is no control character is appended, and every other
/// key leaves the input as it is.
pub open spec fn typed(input: Seq<char>, key: Key) -> Seq<char> {
    match key {
        Key::Backspace => if input.len() > 0 {
            input.drop_last()
        } else {
            input
        },
        Key::Char(c) => if is_control(c) {
            input
        } else {
            input.push(c)
        },
        Key::Esc => Seq::empty(),
        _ => input,
    }
}

/// What a prompt that closes with `input` hands back: the input, or nothing
/// if it is empty.
pub open spec fn prompt_result(input: Seq<char>) -> Option<Seq<char>> {
    if input.len() == 0 {
        None
    } else {
        Some(input)
    }
}

/// Applies `key` to the input of a prompt, and tells whether the key closes
/// the prompt.
pub fn prompt_key(input: &mut Vec<char>, key: Key) -> (done: bool)
    ensures
        final(input)@ == typed(old(input)@, key),
        done == ends_prompt(key),
{
    match key {
        Key::Backspace => {
            if input.len() > 0 {
                input.pop();
            }
            false
        },
        Key::Char(c) => {
            if c == '\n' {
                true
            } else {
                if !char_is_control(c) {
                    input.push(c);
                }
                false
            }
        },
        Key::Esc => {
            input.clear();
            true
        },
        _ => false,
    }
}

/// Escape leaves a prompt without a result, whatever had been typed.
pub proof fn lemma_escape_yields_nothing(input: Seq<char>)
    ensures
        ends_prompt(Key::Esc),
        prompt_result(typed(input, Key::Esc)) is None,
{
}

} // verus!
