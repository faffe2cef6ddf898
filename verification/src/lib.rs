//! The decision logic of a PCRE2 binding, kept apart from the foreign calls.
//!
//! The library makes no call into the native engine. For each call that is to
//! be made it hands out a value that says what to ask ([`CompileCall`],
//! [`MatchCall`]), and it takes the engine's answer as plain numbers: it checks
//! options before a pattern is compiled, turns result codes and offsets into
//! matches and errors, and steers the scan that finds all matches in a subject.
//! A native block is known to the library by its address alone; to allocate and
//! to free it is for the program that makes the calls.
//!
//! A program goes through these steps:
//!
//! 1. It has the engine allocate a compile context and wraps its address in a
//!    [`CompileContext`]. A failed allocation is fatal: no context is made of a
//!    null address.
//! 2. [`PCRE2Builder::build`], [`PCRE2::new`], [`Pattern::new`] or
//!    [`Pattern::new_with`] check the options and give the [`CompileCall`].
//!    Invalid options are refused at this point, before the engine is asked.
//! 3. It has the engine compile what the call says, and [`Pattern::compiled`]
//!    makes a [`Pattern`] or a compile error of the answer.
//! 4. It has the engine allocate the match data block for the pattern, and
//!    [`PCRE2::from_pattern`] makes the engine.
//! 5. For one match attempt, [`PCRE2::find_at`] gives the [`MatchCall`], the
//!    program has the engine carry it out, and [`PCRE2::matched`] makes a
//!    [`Match`] or an error of the result code and the offsets.
//! 6. For all matches, [`PCRE2::find_iter`] gives a [`Matches`] cursor. As long
//!    as [`Matches::call`] gives a call, the program has it carried out, hands
//!    what [`PCRE2::matched`] made of the answer to [`Matches::next`], and
//!    reports what the [`Step`] says.
//!
//! An engine records the offsets of a match in its own match data: one engine
//! serves one match attempt at a time.

pub mod context;
pub mod cursor;
pub mod decimal;
pub mod engine;
pub mod error;
pub mod found;
pub mod match_data;
pub mod options;
pub mod pattern;
pub mod scan;

pub use context::CompileContext;
pub use cursor::{Matches, Step};
pub use engine::{MatchCall, PCRE2Builder, PCRE2};
pub use error::Error;
pub use found::{Match, Span};
pub use match_data::MatchData;
pub use options::{is_option_valid, OPTION_MASK};
pub use pattern::{CompileCall, Pattern};
pub use scan::{Emit, Scan};
