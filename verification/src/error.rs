//! The library's error channel.  Both error kinds the parser core knows —
//! a clarification prompt for a half-understood request and the friendly
//! non-answer for an unrecognized one — carry user-facing reply text, never
//! a fault: callers send the text back to the chat.

use vstd::prelude::*;

verus! {

#[derive(Debug)]
pub enum BotError {
    /// Reply text to send back to the chat: either a clarification prompt
    /// or a friendly non-answer.
    InvalidCommand(String),
    /// A configuration value is missing or out of range; carries the
    /// complaint.
    EnvVar(String),
}

impl BotError {
    /// The user-facing reply text this error carries.
    pub fn message(&self) -> (r: &String)
        ensures
            r@ == self.text(),
    {
        match self {
            BotError::InvalidCommand(m) => m,
            BotError::EnvVar(m) => m,
        }
    }

    pub open spec fn text(&self) -> Seq<char> {
        match self {
            BotError::InvalidCommand(m) => m@,
            BotError::EnvVar(m) => m@,
        }
    }
}

} // verus!
