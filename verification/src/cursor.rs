//! The cursor of a find-all scan. It walks a subject from left to right, is told
//! what each match attempt found, and decides what to report and where to search
//! next. It makes no match attempt itself.

use vstd::prelude::*;

use crate::engine::MatchCall;
use crate::error::Error;
use crate::found::{Match, Span};
use crate::options::PCRE2_NO_UTF_CHECK;
use crate::scan::{start, transition, Emit, Scan};

verus! {

/// What a match attempt found, with a match reduced to its offsets.
pub open spec fn outcome(found: Result<Match<'_>, Error>) -> Result<Span, Error> {
    match found {
        Ok(m) => Ok(m@.span()),
        Err(e) => Err(e),
    }
}

/// What one step of a [`Matches`] cursor hands to the caller.
#[derive(Clone, Copy, Debug, PartialEq, Eq)]
pub enum Step<'s> {
    /// A match to report.
    Yield(Match<'s>),
    /// An empty match at the end of the match reported before it: not reported,
    /// the scan goes on.
    Suppressed,
    /// An error to report; the scan is over.
    Failed(Error),
    /// Nothing more; the scan is over.
    Done,
}

impl<'s> View for Step<'s> {
    type V = Emit;

    /// The step with a match reduced to its offsets.
    open spec fn view(&self) -> Emit {
        match *self {
            Step::Yield(m) => Emit::Yield(m@.span()),
            Step::Suppressed => Emit::Suppress,
            Step::Failed(e) => Emit::Fail(e),
            Step::Done => Emit::Stop,
        }
    }
}

/// What a [`Matches`] cursor holds.
pub struct MatchesView {
    /// The address of the compiled pattern that is searched for.
    pub code: usize,
    /// The address of the match data block that the attempts write to.
    pub match_data: usize,
    /// The subject that is scanned.
    pub subject: Seq<u8>,
    /// The state of the scan.
    pub state: Scan,
}

/// A cursor over the successive, non-overlapping matches in one subject.
#[derive(Debug)]
pub struct Matches<'s> {
    code: usize,
    match_data: usize,
    subject: &'s [u8],
    last_end: usize,
    last_match: Option<usize>,
    done: bool,
}

impl<'s> View for Matches<'s> {
    type V = MatchesView;

    closed spec fn view(&self) -> MatchesView {
        MatchesView {
            code: self.code,
            match_data: self.match_data,
            subject: self.subject@,
            state: if self.done || self.last_end > self.subject@.len() {
                Scan::Done
            } else {
                Scan::Scanning {
                    last_end: self.last_end as int,
                    last_match: match self.last_match {
                        Some(e) => Some(e as int),
                        None => None,
                    },
                }
            },
        }
    }
}

impl<'s> Matches<'s> {
    /// A cursor at the start of `subject`, with no match reported yet, for the
    /// pattern at `code` and the match data block at `match_data`.
    pub(crate) fn new(code: usize, match_data: usize, subject: &'s [u8]) -> (cursor: Matches<'s>)
        ensures
            cursor@ == (MatchesView { code, match_data, subject: subject@, state: start() }),
    {
        Matches { code, match_data, subject, last_end: 0, last_match: None, done: false }
    }

    /// The match attempt that the scan asks for next: on the whole subject, from
    /// the offset that the scan has reached, without a check for valid UTF. There
    /// is none when the scan is over.
    pub fn call(&self) -> (call: Option<MatchCall<'s>>)
        ensures
            match self@.state {
                Scan::Scanning { last_end, .. } => call matches Some(c) && c.code == self@.code
                    && c.match_data == self@.match_data && c.subject@ == self@.subject && c.start
                    == last_end && c.options == PCRE2_NO_UTF_CHECK,
                Scan::Done => call is None,
            },
    {
        if self.done || self.last_end > self.subject.len() {
            None
        } else {
            Some(
                MatchCall {
                    code: self.code,
                    subject: self.subject,
                    start: self.last_end,
                    options: PCRE2_NO_UTF_CHECK,
                    match_data: self.match_data,
                },
            )
        }
    }

    /// Takes what the match attempt of [`call`](Self::call) found and moves the
    /// scan on: past the match, and one byte further after an empty one. An
    /// empty match at the end of the match reported before it is not reported.
    /// When nothing was found, or the attempt failed, the scan is over. A match
    /// that is reported is the one that was found.
    pub fn next(&mut self, found: Result<Match<'s>, Error>) -> (step: Step<'s>)
        ensures
            final(self)@ == (MatchesView {
                state: transition(old(self)@.subject.len(), old(self)@.state, outcome(found)).0,
                ..old(self)@
            }),
            step@ == transition(old(self)@.subject.len(), old(self)@.state, outcome(found)).1,
            step matches Step::Yield(m) ==> found == Ok::<Match<'s>, Error>(m),
    {
        if self.done || self.last_end > self.subject.len() {
            return Step::Done;
        }
        match found {
            Err(Error::NoMatch) => {
                self.done = true;
                Step::Done
            },
            Err(e) => {
                self.done = true;
                Step::Failed(e)
            },
            Ok(m) => {
                let end: usize = m.end();
                if m.start() == end {
                    // An empty match: the next attempt starts one byte further on.
                    if end == usize::MAX {
                        self.done = true;
                    } else {
                        self.last_end = end + 1;
                    }
                    // No empty match right after the match reported before it.
                    let adjacent: bool = match self.last_match {
                        Some(previous) => previous == end,
                        None => false,
                    };
                    if adjacent {
                        return Step::Suppressed;
                    }
                } else {
                    self.last_end = end;
                }
                self.last_match = Some(end);
                Step::Yield(m)
            },
        }
    }
}

} // verus!
