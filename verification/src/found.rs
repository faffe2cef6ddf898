//! One located match: where it lies in the subject and the bytes it covers.

use vstd::prelude::*;
use vstd::utf8::{decode_utf8, valid_utf8};

verus! {

/// The offsets of a match in its subject: it covers `[start, end)`.
pub struct Span {
    pub start: int,
    pub end: int,
}

impl Span {
    /// The span covers no byte.
    pub open spec fn is_empty(self) -> bool {
        self.start == self.end
    }
}

/// What a [`Match`] holds: the matched bytes and their offsets in the subject.
pub struct MatchView {
    pub bytes: Seq<u8>,
    pub start: int,
    pub end: int,
}

impl MatchView {
    /// The offsets of the match.
    pub open spec fn span(self) -> Span {
        Span { start: self.start, end: self.end }
    }

    /// The match is the part `[start, end)` of `subject`.
    pub open spec fn lies_in(self, subject: Seq<u8>) -> bool {
        &&& 0 <= self.start <= self.end <= subject.len()
        &&& self.bytes == subject.subrange(self.start, self.end)
    }
}

/// `std::str::from_utf8`: the text that `bytes` encode, if they are valid
/// UTF-8, and nothing if they are not.
#[verifier::external_body]
fn utf8_text(bytes: &[u8]) -> (text: Option<&str>)
    ensures
        text is Some <==> valid_utf8(bytes@),
        text matches Some(t) ==> t@ == decode_utf8(bytes@),
{
    match std::str::from_utf8(bytes) {
        Ok(text) => Some(text),
        Err(_) => None,
    }
}

/// A match: the matched bytes and the offsets at which they lie in the subject.
#[derive(Clone, Copy, Debug, PartialEq, Eq)]
pub struct Match<'s> {
    subject: &'s [u8],
    start: usize,
    end: usize,
}

impl<'s> View for Match<'s> {
    type V = MatchView;

    closed spec fn view(&self) -> MatchView {
        MatchView { bytes: self.subject@, start: self.start as int, end: self.end as int }
    }
}

impl<'s> Match<'s> {
    /// Creates a match from the matched bytes and their offsets in the subject.
    pub fn new(subject: &'s [u8], start: usize, end: usize) -> (m: Match<'s>)
        ensures
            m@ == (MatchView { bytes: subject@, start: start as int, end: end as int }),
    {
        Match { subject, start, end }
    }

    /// Returns the starting byte offset of the match in the subject.
    #[inline]
    pub fn start(&self) -> (start: usize)
        ensures
            start == self@.start,
    {
        self.start
    }

    /// Returns the ending byte offset of the match in the subject.
    #[inline]
    pub fn end(&self) -> (end: usize)
        ensures
            end == self@.end,
    {
        self.end
    }

    /// Returns the matched part of the subject.
    #[inline]
    pub fn as_bytes(&self) -> (bytes: &'s [u8])
        ensures
            bytes@ == self@.bytes,
    {
        self.subject
    }

    /// Returns the matched part of the subject as text. The matched bytes
    /// must be valid UTF-8.
    pub fn to_string(&self) -> (text: &'s str)
        requires
            valid_utf8(self@.bytes),
        ensures
            text@ == decode_utf8(self@.bytes),
    {
        utf8_text(self.subject).unwrap()
    }
}

} // verus!
