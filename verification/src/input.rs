//! The input line and the mode that its text puts it in.

use crate::text::{chars_of, lowercase, starts_with, starts_with_str, to_lowercase};
use vstd::prelude::*;

verus! {

/// What the text of the input line is meant for.
#[derive(Clone, Copy, Debug, PartialEq, Eq)]
pub enum InputMode {
    /// A message for the channel.
    Normal,
    /// A slash command for the agent.
    AgentCommand,
    /// A message that mentions the agent.
    AgentMention,
}

/// The input line.
#[derive(Debug)]
pub struct InputState {
    pub buffer: String,
    pub mode: InputMode,
    pub cursor_position: usize,
}

/// The mode that the text `buffer` puts the input line in: a command
/// where it starts with `/`, a mention where in lower case it starts with
/// `@zeroclaw` or `@zc`, a message else.
pub open spec fn mode_of(buffer: Seq<char>) -> InputMode {
    mode_for(buffer, lowercase(buffer))
}

/// The mode for the text `buffer`, of which `low` is the lower case: a
/// command where the text starts with `/`, a mention where `low` starts
/// with `@zeroclaw` or `@zc`, a message else, and for an empty text.
pub open spec fn mode_for(buffer: Seq<char>, low: Seq<char>) -> InputMode {
    if buffer.len() == 0 {
        InputMode::Normal
    } else if buffer[0] == '/' {
        InputMode::AgentCommand
    } else if starts_with(low, "@zeroclaw"@) || starts_with(low, "@zc"@) {
        InputMode::AgentMention
    } else {
        InputMode::Normal
    }
}

/// The mode for the text `buffer`, of which `low` is the lower case.
pub fn mode_from_lowered(buffer: &str, low: &str) -> (r: InputMode)
    ensures
        r == mode_for(buffer@, low@),
{
    let chars = chars_of(buffer);
    if chars.len() == 0 {
        InputMode::Normal
    } else if chars[0] == '/' {
        InputMode::AgentCommand
    } else {
        let low_chars = chars_of(low);
        if starts_with_str(&low_chars, "@zeroclaw") || starts_with_str(&low_chars, "@zc") {
            InputMode::AgentMention
        } else {
            InputMode::Normal
        }
    }
}

impl InputState {
    /// The mode fits the text, and the cursor stands behind the text, at
    /// the length of the text in bytes.
    pub open spec fn well_formed(self) -> bool {
        &&& self.mode == mode_of(self.buffer@)
        &&& self.cursor_position == vstd::utf8::encode_utf8(self.buffer@).len() as usize
    }

    /// The input line is empty, as `clear` leaves it.
    pub open spec fn is_cleared(self) -> bool {
        self.buffer@.len() == 0 && self.cursor_position == 0 && self.mode == InputMode::Normal
    }

    /// The empty input line.
    pub fn new() -> (r: InputState)
        ensures
            r.buffer@.len() == 0,
            r.mode == InputMode::Normal,
            r.cursor_position == 0,
    {
        InputState { buffer: String::new(), mode: InputMode::Normal, cursor_position: 0 }
    }

    /// Types `c` at the end of the text.
    pub fn handle_char(&mut self, c: char)
        ensures
            final(self).buffer@ == old(self).buffer@.push(c),
            final(self).well_formed(),
    {
        self.buffer.push(c);
        self.cursor_position = self.buffer.as_str().len();
        self.update_mode();
    }

    /// Deletes the last character of the text, if it has one.
    pub fn handle_backspace(&mut self)
        ensures
            final(self).buffer@ == if old(self).buffer@.len() > 0 {
                old(self).buffer@.drop_last()
            } else {
                old(self).buffer@
            },
            old(self).buffer@.len() > 0 ==> final(self).well_formed(),
            old(self).buffer@.len() == 0 ==> *final(self) == *old(self),
    {
        if !self.buffer.as_str().is_empty() {
            let _ = self.buffer.pop();
            self.cursor_position = self.buffer.as_str().len();
            self.update_mode();
        }
    }

    /// Empties the input line.
    pub fn clear(&mut self)
        ensures
            final(self).is_cleared(),
    {
        self.buffer.clear();
        self.cursor_position = 0;
        self.mode = InputMode::Normal;
    }

    /// Puts the input line in the mode that fits its text.
    pub fn update_mode(&mut self)
        ensures
            final(self).buffer == old(self).buffer,
            final(self).cursor_position == old(self).cursor_position,
            final(self).mode == mode_of(old(self).buffer@),
    {
        let low = to_lowercase(self.buffer.as_str());
        self.mode = mode_from_lowered(self.buffer.as_str(), low.as_str());
    }
}

impl Default for InputState {
    fn default() -> (r: InputState)
        ensures
            r.buffer@.len() == 0,
            r.mode == InputMode::Normal,
            r.cursor_position == 0,
    {
        InputState::new()
    }
}

} // verus!
