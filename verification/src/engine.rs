//! The engine: a compiled pattern with its match data block. It says what the
//! native matcher is to be asked, and makes a match or an error of its answer.

use vstd::prelude::*;

use crate::context::CompileContext;
use crate::cursor::{outcome, Matches, MatchesView};
use crate::error::Error;
use crate::found::{Match, Span};
use crate::match_data::{MatchData, MatchDataView};
use crate::options::{default_options_valid, option_valid, PCRE2_ERROR_NOMATCH, PCRE2_NO_UTF_CHECK};
use crate::pattern::{CompileCall, CompileCallView, Pattern, PatternView};
use crate::scan::start;

verus! {

/// One match attempt that the native matcher is to carry out.
#[derive(Clone, Copy, Debug)]
pub struct MatchCall<'s> {
    /// The address of the compiled pattern.
    pub code: usize,
    /// The bytes to search.
    pub subject: &'s [u8],
    /// The offset in the subject at which the search begins.
    pub start: usize,
    /// The options of the attempt.
    pub options: u32,
    /// The address of the match data block to write the offsets to.
    pub match_data: usize,
}

/// The first offset pair can be read and is a span of a subject of `len`
/// bytes: the offsets are two for each of the block's pairs, there is a first
/// pair, and it runs forward and ends within the subject.
pub open spec fn readable(len: nat, slots: nat, offsets: Seq<usize>) -> bool {
    &&& slots >= 1
    &&& offsets.len() == 2 * slots
    &&& offsets[0] <= offsets[1] <= len
}

/// What a match attempt on a subject of `len` bytes came to, from the result
/// code `rc` of the native matcher and the offsets it wrote to a block of
/// `slots` pairs. The code for "no match" is `NoMatch`. A positive code is a
/// match, at the first offset pair. Any other code is the engine's fault, and
/// so is a positive code with a first pair that is no span of the subject.
pub open spec fn match_outcome(len: nat, slots: nat, rc: i32, offsets: Seq<usize>) -> Result<
    Span,
    Error,
> {
    if rc == PCRE2_ERROR_NOMATCH {
        Err(Error::NoMatch)
    } else if rc > 0 && readable(len, slots, offsets) {
        Ok(Span { start: offsets[0] as int, end: offsets[1] as int })
    } else {
        Err(Error::MatchError { code: rc })
    }
}

/// A match that an attempt comes to runs forward and lies within the subject.
pub proof fn outcome_is_a_span(len: nat, slots: nat, rc: i32, offsets: Seq<usize>)
    ensures
        match_outcome(len, slots, rc, offsets) matches Ok(span) ==> 0 <= span.start <= span.end
            <= len,
{
}

/// On an empty subject a match attempt ends, whatever the native matcher
/// answers, in one of three ways: with the empty match at offset 0, with
/// `NoMatch`, or with `MatchError` and the matcher's code.
pub proof fn empty_subject_outcome(slots: nat, rc: i32, offsets: Seq<usize>)
    ensures
        match match_outcome(0, slots, rc, offsets) {
            Ok(span) => span == (Span { start: 0, end: 0 }) && rc > 0,
            Err(Error::NoMatch) => rc == PCRE2_ERROR_NOMATCH,
            Err(e) => e == (Error::MatchError { code: rc }) && rc != PCRE2_ERROR_NOMATCH,
        },
{
}

/// What a [`PCRE2`] engine holds.
pub struct PCRE2View {
    /// The options the pattern was compiled with.
    pub options: u32,
    /// The source of the pattern.
    pub origin: Seq<char>,
    /// The compiled pattern.
    pub pattern: PatternView,
    /// The match data block.
    pub data: MatchDataView,
}

impl PCRE2View {
    /// The match data block was sized from the pattern, and the options and the
    /// source are those of the pattern.
    pub open spec fn wf(self) -> bool {
        &&& self.data.pattern == self.pattern.code
        &&& self.options == self.pattern.options
        &&& self.origin == self.pattern.source
    }

    /// The engine after a match attempt to which the native matcher answered
    /// `rc` and `offsets`: the offsets of a match are recorded in the block.
    pub open spec fn after(self, rc: i32, offsets: Seq<usize>) -> PCRE2View {
        if rc > 0 {
            PCRE2View { data: self.data.written(offsets), ..self }
        } else {
            self
        }
    }
}

/// A match attempt changes nothing of an engine but what is recorded in its
/// match data block: pattern, options and source stay, the block stays the
/// same block with the same pairs, and a well-formed engine stays well formed.
pub proof fn attempt_keeps_engine(engine: PCRE2View, rc: i32, offsets: Seq<usize>)
    ensures
        ({
            let after = engine.after(rc, offsets);
            &&& after.pattern == engine.pattern
            &&& after.options == engine.options
            &&& after.origin == engine.origin
            &&& after.data.data == engine.data.data
            &&& after.data.pattern == engine.data.pattern
            &&& after.data.slots == engine.data.slots
            &&& engine.wf() ==> after.wf()
            &&& after.data.offsets matches Some(recorded) ==> engine.data.offsets == Some(recorded)
                || (rc > 0 && recorded == offsets)
        }),
{
}

/// A compiled pattern together with the match data block that was sized from it.
#[derive(Debug)]
pub struct PCRE2 {
    /// compile options
    options: u32,
    /// source of the pattern
    origin: String,
    /// compiled pattern
    pattern: Pattern,
    /// match data that the native matcher writes to
    data: MatchData,
}

impl View for PCRE2 {
    type V = PCRE2View;

    closed spec fn view(&self) -> PCRE2View {
        PCRE2View {
            options: self.options,
            origin: self.origin@,
            pattern: self.pattern@,
            data: self.data@,
        }
    }
}

impl PCRE2 {
    /// Prepares the compilation of `pattern` with no option set: the call is
    /// always made.
    pub fn new(pattern: &str, ctx: CompileContext) -> (call: Result<CompileCall<'_>, Error>)
        ensures
            call matches Ok(c) && c@ == (CompileCallView {
                pattern: pattern@,
                options: 0,
                context: ctx@,
            }),
    {
        proof {
            default_options_valid();
        }
        PCRE2Builder::new().build(pattern, ctx)
    }

    /// Makes the engine of a compiled pattern and the match data block that the
    /// native allocator made for it at `data`, with `ovector_cnt` offset pairs.
    /// No engine can be made of a failed allocation.
    pub fn from_pattern(pattern: Pattern, data: usize, ovector_cnt: u32) -> (engine: PCRE2)
        requires
            data != 0,
        ensures
            engine@ == (PCRE2View {
                options: pattern@.options,
                origin: pattern@.source,
                pattern: pattern@,
                data: MatchDataView {
                    data,
                    pattern: pattern@.code,
                    slots: ovector_cnt as nat,
                    offsets: None,
                },
            }),
            engine@.wf(),
    {
        let options: u32 = pattern.options();
        let origin = pattern.source().to_owned();
        let data = MatchData::new(&pattern, data, ovector_cnt);
        PCRE2 { options, origin, pattern, data }
    }

    /// The compiled pattern.
    pub fn pattern(&self) -> (pattern: &Pattern)
        ensures
            pattern@ == self@.pattern,
    {
        &self.pattern
    }

    /// The match data block.
    pub fn data(&self) -> (data: &MatchData)
        ensures
            data@ == self@.data,
    {
        &self.data
    }

    /// The one match attempt on `subject` that begins its search at `start`.
    /// The subject is not checked again for valid UTF: that it is valid is for
    /// the caller to see to.
    pub fn find_at<'s>(&self, subject: &'s [u8], start: usize) -> (call: MatchCall<'s>)
        ensures
            call == (MatchCall {
                code: self@.pattern.code,
                subject,
                start,
                options: PCRE2_NO_UTF_CHECK,
                match_data: self@.data.data,
            }),
            call.code != 0,
            call.match_data != 0,
    {
        self.find_at_with_options(subject, start, PCRE2_NO_UTF_CHECK)
    }

    /// The one match attempt on `subject` that begins its search at `start`,
    /// with `options`.
    pub fn find_at_with_options<'s>(&self, subject: &'s [u8], start: usize, options: u32) -> (call:
        MatchCall<'s>)
        ensures
            call == (MatchCall {
                code: self@.pattern.code,
                subject,
                start,
                options,
                match_data: self@.data.data,
            }),
            call.code != 0,
            call.match_data != 0,
    {
        MatchCall {
            code: self.pattern.as_ptr(),
            subject,
            start,
            options,
            match_data: self.data.as_mut_ptr(),
        }
    }

    /// Takes the native matcher's answer to `call`: its result code, and the
    /// offsets that it wrote to the match data block. The code for "no match"
    /// gives `NoMatch`. A positive code gives the match at the first offset pair,
    /// and the offsets are recorded in the block. Any other code gives
    /// `MatchError` with the code, and so does a positive code with a first
    /// pair that is no span of the subject.
    pub fn matched<'s>(&mut self, call: MatchCall<'s>, rc: i32, offsets: &[usize]) -> (found:
        Result<Match<'s>, Error>)
        ensures
            outcome(found) == match_outcome(call.subject@.len(), old(self)@.data.slots, rc, offsets@),
            found matches Ok(m) ==> m@.lies_in(call.subject@),
            final(self)@ == old(self)@.after(rc, offsets@),
    {
        if rc == PCRE2_ERROR_NOMATCH {
            return Err(Error::NoMatch);
        }
        if rc > 0 && self.data.overwrite(offsets) {
            let ovector = self.data.ovector();
            if ovector.len() >= 2 {
                let (start, end) = (ovector[0], ovector[1]);
                if start <= end && end <= call.subject.len() {
                    let bytes = vstd::slice::slice_subrange(call.subject, start, end);
                    return Ok(Match::new(bytes, start, end));
                }
            }
        }
        Err(Error::MatchError { code: rc })
    }

    /// A cursor over the successive matches in `subject`, at its start.
    pub fn find_iter<'s>(&self, subject: &'s [u8]) -> (cursor: Matches<'s>)
        ensures
            cursor@ == (MatchesView {
                code: self@.pattern.code,
                match_data: self@.data.data,
                subject: subject@,
                state: start(),
            }),
    {
        Matches::new(self.pattern.as_ptr(), self.data.as_mut_ptr(), subject)
    }

    /// Tells whether the attempt on `subject` from its start, of which `rc` and
    /// `offsets` are the native matcher's answer, found a match.
    pub fn is_match(&mut self, subject: &[u8], rc: i32, offsets: &[usize]) -> (found: bool)
        ensures
            found == match_outcome(subject@.len(), old(self)@.data.slots, rc, offsets@) is Ok,
            final(self)@ == old(self)@.after(rc, offsets@),
    {
        let call = self.find_at(subject, 0);
        self.matched(call, rc, offsets).is_ok()
    }
}

/// Collects the options of an engine before its pattern is compiled.
#[derive(Debug)]
pub struct PCRE2Builder {
    options: u32,
}

impl View for PCRE2Builder {
    type V = u32;

    /// The options chosen so far.
    closed spec fn view(&self) -> u32 {
        self.options
    }
}

impl Default for PCRE2Builder {
    fn default() -> (builder: Self)
        ensures
            builder@ == 0,
    {
        PCRE2Builder { options: 0 }
    }
}

impl PCRE2Builder {
    /// A builder with no option set.
    pub fn new() -> (builder: Self)
        ensures
            builder@ == 0,
    {
        PCRE2Builder { options: 0 }
    }

    /// Prepares the compilation of `pattern` with the options chosen, in the
    /// context `ctx`. Options with a bit that is no supported compile flag are
    /// refused here, and no call for the engine is made of them.
    pub fn build(self, pattern: &str, ctx: CompileContext) -> (call: Result<
        CompileCall<'_>,
        Error,
    >)
        ensures
            !option_valid(self@) ==> call == Err::<CompileCall<'_>, Error>(
                Error::InvalidOption { options: self@ },
            ),
            option_valid(self@) ==> (call matches Ok(c) && c@ == (CompileCallView {
                pattern: pattern@,
                options: self@,
                context: ctx@,
            })),
    {
        Pattern::new_with(pattern, self.options, ctx)
    }

    /// Replaces the options chosen so far by `options`. They are checked when
    /// the pattern is compiled, not here.
    pub fn options(self, options: u32) -> (builder: Self)
        ensures
            builder@ == options,
    {
        PCRE2Builder { options }
    }

    /// Adds `option` to the options chosen so far.
    pub fn add_option(self, option: u32) -> (builder: Self)
        ensures
            builder@ == self@ | option,
    {
        PCRE2Builder { options: self.options | option }
    }
}

} // verus!
