//! What can go wrong when a pattern is compiled or a subject is searched, and
//! how it is put into words.

use vstd::prelude::*;
use vstd::string::StringExecFns;

use crate::decimal::{decimal, push_decimal, push_signed, signed};

verus! {

/// The ways a compilation or a match attempt ends without a result.
#[derive(Clone, Copy, Debug, PartialEq, Eq, Structural)]
pub enum Error {
    /// The option word sets a bit that is no supported compile flag.
    InvalidOption { options: u32 },
    /// The engine rejected the pattern at `byte_offset` of its source.
    CompileError { code: i32, byte_offset: usize },
    /// The pattern occurs nowhere at or after the starting offset.
    NoMatch,
    /// The engine gave up on the match attempt with `code`.
    MatchError { code: i32 },
}

/// The words for an error: an invalid option word with its value, a failed
/// compilation with the engine's code and the offset of the failure in the
/// pattern, a failed match attempt with the engine's code.
pub open spec fn message_of(error: Error) -> Seq<char> {
    match error {
        Error::InvalidOption { options } => "invalid compile option: "@ + decimal(options as nat),
        Error::CompileError { code, byte_offset } => "pattern compile error: "@ + signed(
            code as int,
        ) + " "@ + decimal(byte_offset as nat),
        Error::NoMatch => "No match items"@,
        Error::MatchError { code } => "find error: "@ + signed(code as int),
    }
}

/// `text` ends with `tail`.
pub open spec fn ends_with(text: Seq<char>, tail: Seq<char>) -> bool {
    tail.len() <= text.len() && text.subrange(text.len() - tail.len(), text.len() as int) == tail
}

/// The words for a failed compilation end with the offset in the pattern at
/// which it failed, and the words for a failed match attempt end with the
/// engine's code.
pub proof fn message_names_the_place(error: Error)
    ensures
        error matches Error::CompileError { byte_offset, .. } ==> ends_with(
            message_of(error),
            decimal(byte_offset as nat),
        ),
        error matches Error::MatchError { code } ==> ends_with(
            message_of(error),
            signed(code as int),
        ),
{
    match error {
        Error::CompileError { code, byte_offset } => {
            let head = "pattern compile error: "@ + signed(code as int) + " "@;
            let tail = decimal(byte_offset as nat);
            assert((head + tail).subrange((head + tail).len() - tail.len(), (head + tail).len() as int)
                =~= tail);
        },
        Error::MatchError { code } => {
            let head = "find error: "@;
            let tail = signed(code as int);
            assert((head + tail).subrange((head + tail).len() - tail.len(), (head + tail).len() as int)
                =~= tail);
        },
        _ => {},
    }
}

impl Error {
    /// The error in words, for a person to read.
    pub fn message(&self) -> (text: String)
        ensures
            text@ == message_of(*self),
    {
        match *self {
            Error::InvalidOption { options } => {
                let mut text = String::from_str("invalid compile option: ");
                push_decimal(&mut text, options as u64);
                text
            },
            Error::CompileError { code, byte_offset } => {
                let mut text = String::from_str("pattern compile error: ");
                push_signed(&mut text, code);
                text.append(" ");
                push_decimal(&mut text, byte_offset as u64);
                text
            },
            Error::NoMatch => String::from_str("No match items"),
            Error::MatchError { code } => {
                let mut text = String::from_str("find error: ");
                push_signed(&mut text, code);
                text
            },
        }
    }
}

} // verus!
