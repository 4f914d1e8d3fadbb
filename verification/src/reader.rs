//! Reading a command line, one input event at a time.

use crate::text::slice;
use vstd::prelude::*;

verus! {

/// What an input event means while a command is being typed.
#[derive(Debug, PartialEq, Eq)]
pub enum Action {
    /// Take back the last character, or leave where there is none.
    Backspace,
    /// Text was typed.
    KeyboardInput(String),
    /// Leave command mode.
    SwitchNormalMode,
    /// Anything else.
    Other,
}

/// What the reader of the command line does after an event.
#[derive(Clone, Copy, Debug, PartialEq, Eq, Structural)]
pub enum Reading {
    /// Nothing changed: wait for the next event.
    Wait,
    /// The line changed: draw it, then wait for the next event.
    Render,
    /// The line is read.
    Done,
}

/// The line after `text` was typed at the end of `line`. Where the result
/// begins with `cmd`, the key that command mode was entered with, that
/// character is taken off: it can come in with the first event.
pub open spec fn typed(line: Seq<char>, text: Seq<char>, cmd: char) -> Seq<char> {
    let whole = line + text;
    if whole.len() > 0 && whole[0] == cmd {
        whole.drop_first()
    } else {
        whole
    }
}

/// Types `text` at the end of `line`.
pub fn type_text(line: &mut String, text: &str, cmd: char)
    ensures
        final(line)@ == typed(old(line)@, text@, cmd),
{
    line.append(text);
    let length = line.as_str().unicode_len();
    if length > 0 && line.as_str().get_char(0) == cmd {
        *line = slice(line.as_str(), 1, length);
    }
}

/// Takes the last character off `line`.
pub fn erase_last(line: &mut String)
    requires
        old(line)@.len() > 0,
    ensures
        final(line)@ == old(line)@.drop_last(),
{
    let length = line.as_str().unicode_len();
    *line = slice(line.as_str(), 0, length - 1);
}

} // verus!
