//! The find-all scan as a state machine over mathematical integers, and what
//! holds of every run of it: the scan moves forward, it ends, and the matches
//! it reports do not overlap.

use vstd::prelude::*;

use crate::error::Error;
use crate::found::Span;

verus! {

/// The state of a scan over a subject.
pub enum Scan {
    /// The next attempt starts at `last_end`; `last_match` is the end of the
    /// match reported last, if any was reported.
    Scanning { last_end: int, last_match: Option<int> },
    /// The scan is over.
    Done,
}

/// What one step of a scan hands to the caller.
pub enum Emit {
    /// A match to report.
    Yield(Span),
    /// An empty match at the end of the match reported before it: not reported.
    Suppress,
    /// An error to report; the scan is over.
    Fail(Error),
    /// Nothing more; the scan is over.
    Stop,
}

/// The state in which a scan begins.
pub open spec fn start() -> Scan {
    Scan::Scanning { last_end: 0, last_match: None }
}

/// A scan that would start beyond the subject is over.
pub open spec fn settle(len: nat, last_end: int, last_match: Option<int>) -> Scan {
    if last_end > len {
        Scan::Done
    } else {
        Scan::Scanning { last_end, last_match }
    }
}

/// One step of a scan over a subject of `len` bytes: the state after the attempt
/// that gave `found`, and what is handed to the caller.
pub open spec fn transition(len: nat, state: Scan, found: Result<Span, Error>) -> (Scan, Emit) {
    match state {
        Scan::Done => (Scan::Done, Emit::Stop),
        Scan::Scanning { last_end, last_match } => match found {
            Err(Error::NoMatch) => (Scan::Done, Emit::Stop),
            Err(e) => (Scan::Done, Emit::Fail(e)),
            Ok(m) => if !m.is_empty() {
                (settle(len, m.end, Some(m.end)), Emit::Yield(m))
            } else if last_match == Some(m.end) {
                (settle(len, m.end + 1, last_match), Emit::Suppress)
            } else {
                (settle(len, m.end + 1, Some(m.end)), Emit::Yield(m))
            },
        },
    }
}

/// A scanning state searches from an offset within the subject.
pub open spec fn valid(len: nat, state: Scan) -> bool {
    match state {
        Scan::Scanning { last_end, .. } => 0 <= last_end <= len,
        Scan::Done => true,
    }
}

/// `found` can be the answer to the attempt that `state` asks for: a match
/// lies at or after the offset at which the search began.
pub open spec fn answers(state: Scan, found: Result<Span, Error>) -> bool {
    match (state, found) {
        (Scan::Scanning { last_end, .. }, Ok(m)) => last_end <= m.start <= m.end,
        _ => true,
    }
}

/// The number of steps left to a scan, at most: one for each offset at which an
/// attempt can still start.
pub open spec fn remaining(len: nat, state: Scan) -> nat {
    match state {
        Scan::Scanning { last_end, .. } => if last_end <= len {
            (len + 1 - last_end) as nat
        } else {
            0
        },
        Scan::Done => 0,
    }
}

/// The step reported a match or suppressed one.
pub open spec fn moved(emit: Emit) -> bool {
    emit is Yield || emit is Suppress
}

/// Each of `finds` answers the attempt that the scan asked for when it came.
pub open spec fn answered(len: nat, state: Scan, finds: Seq<Result<Span, Error>>) -> bool
    decreases finds.len(),
{
    finds.len() > 0 ==> {
        &&& answers(state, finds[0])
        &&& answered(len, transition(len, state, finds[0]).0, finds.drop_first())
    }
}

/// The state of the scan after it was told `finds`, one by one.
pub open spec fn state_after(len: nat, state: Scan, finds: Seq<Result<Span, Error>>) -> Scan
    decreases finds.len(),
{
    if finds.len() == 0 {
        state
    } else {
        state_after(len, transition(len, state, finds[0]).0, finds.drop_first())
    }
}

/// The number of steps, in the run over `finds`, that reported a match or
/// suppressed one.
pub open spec fn moves(len: nat, state: Scan, finds: Seq<Result<Span, Error>>) -> nat
    decreases finds.len(),
{
    if finds.len() == 0 {
        0
    } else {
        let (next, emit) = transition(len, state, finds[0]);
        let rest = moves(len, next, finds.drop_first());
        if moved(emit) {
            1 + rest
        } else {
            rest
        }
    }
}

/// The matches that the run over `finds` reports, in order.
pub open spec fn yields(len: nat, state: Scan, finds: Seq<Result<Span, Error>>) -> Seq<Span>
    decreases finds.len(),
{
    if finds.len() == 0 {
        Seq::empty()
    } else {
        let (next, emit) = transition(len, state, finds[0]);
        let rest = yields(len, next, finds.drop_first());
        match emit {
            Emit::Yield(m) => seq![m] + rest,
            _ => rest,
        }
    }
}

/// A step leaves a valid state valid.
pub proof fn step_keeps_valid(len: nat, state: Scan, found: Result<Span, Error>)
    requires
        valid(len, state),
        answers(state, found),
    ensures
        valid(len, transition(len, state, found).0),
{
}

/// The offset at which a scan searches never decreases: after a step the scan
/// is over, or it searches at or after the offset it searched at before.
pub proof fn scan_never_goes_back(len: nat, state: Scan, found: Result<Span, Error>)
    requires
        answers(state, found),
    ensures
        match (state, transition(len, state, found).0) {
            (Scan::Scanning { last_end: before, .. }, Scan::Scanning { last_end: after, .. }) =>
                before <= after,
            (_, next) => next is Done,
        },
{
}

/// A step that reports or suppresses a match uses up at least one of the steps
/// that are left; an empty match, too, moves the scan on.
pub proof fn step_makes_progress(len: nat, state: Scan, found: Result<Span, Error>)
    requires
        valid(len, state),
        answers(state, found),
        moved(transition(len, state, found).1),
    ensures
        remaining(len, transition(len, state, found).0) < remaining(len, state),
{
}

/// Once a scan is over it stays over, and hands out nothing more.
pub proof fn done_is_final(len: nat, found: Result<Span, Error>)
    ensures
        transition(len, Scan::Done, found) == (Scan::Done, Emit::Stop),
{
}

/// A scan over a subject of `len` bytes reports or suppresses a match in no
/// more steps than it has left, so from its beginning in at most `len + 1`
/// steps; and once it took as many steps as it had left, it is over.
pub proof fn forward_progress(len: nat, state: Scan, finds: Seq<Result<Span, Error>>)
    requires
        valid(len, state),
        answered(len, state, finds),
    ensures
        moves(len, state, finds) <= remaining(len, state),
        remaining(len, state) <= len + 1,
        finds.len() >= remaining(len, state) ==> state_after(len, state, finds) is Done,
    decreases finds.len(),
{
    if finds.len() > 0 {
        let (next, emit) = transition(len, state, finds[0]);
        step_keeps_valid(len, state, finds[0]);
        forward_progress(len, next, finds.drop_first());
        if moved(emit) {
            step_makes_progress(len, state, finds[0]);
        }
    }
}

/// What holds of the matches that a run reports, from any state: each is a
/// span; none begins before the offset at which the run began to search; the
/// first, if it is empty, does not lie at the end of the match reported before
/// the run; and each begins at or after the end of the one before it, and
/// beyond that end if either of the two is empty.
proof fn yields_in_order(len: nat, state: Scan, finds: Seq<Result<Span, Error>>)
    requires
        answered(len, state, finds),
    ensures
        state is Done ==> yields(len, state, finds).len() == 0,
        forall|k: int|
            0 <= k < yields(len, state, finds).len() ==> {
                let y = #[trigger] yields(len, state, finds)[k];
                &&& y.start <= y.end
                &&& state matches Scan::Scanning { last_end, .. } ==> last_end <= y.start
            },
        yields(len, state, finds).len() > 0 ==> {
            let first = yields(len, state, finds)[0];
            state matches Scan::Scanning { last_match: Some(e), .. } ==> !(first.is_empty()
                && first.end == e)
        },
        forall|k: int|
            0 <= k && k + 1 < yields(len, state, finds).len() ==> {
                let y = #[trigger] yields(len, state, finds)[k];
                let z = yields(len, state, finds)[k + 1];
                &&& y.end <= z.start
                &&& (y.is_empty() || z.is_empty()) ==> y.end < z.start
            },
    decreases finds.len(),
{
    if finds.len() > 0 {
        let (next, emit) = transition(len, state, finds[0]);
        let rest = yields(len, next, finds.drop_first());
        yields_in_order(len, next, finds.drop_first());
        match emit {
            Emit::Yield(m) => {
                let all = yields(len, state, finds);
                assert(all == seq![m] + rest);
                assert(all[0] == m);
                assert forall|k: int| 1 <= k < all.len() implies all[k] == rest[k - 1] by {}
                assert forall|k: int| 0 <= k && k + 1 < all.len() implies {
                    let y = #[trigger] all[k];
                    let z = all[k + 1];
                    &&& y.end <= z.start
                    &&& (y.is_empty() || z.is_empty()) ==> y.end < z.start
                } by {
                    assert(all[k + 1] == rest[k]);
                    if k > 0 {
                        assert(all[k] == rest[k - 1]);
                    }
                }
            },
            _ => {
                assert(yields(len, state, finds) == rest);
            },
        }
    }
}

/// The matches that a scan reports do not overlap: each begins at or after the
/// end of the one reported before it, and beyond that end if either of the two
/// is empty. So no empty match is reported at the end of the match before it.
pub proof fn non_overlap(len: nat, finds: Seq<Result<Span, Error>>, i: int)
    requires
        answered(len, start(), finds),
        0 <= i,
        i + 1 < yields(len, start(), finds).len(),
    ensures
        ({
            let earlier = yields(len, start(), finds)[i];
            let later = yields(len, start(), finds)[i + 1];
            &&& earlier.end <= later.start
            &&& earlier.is_empty() ==> earlier.end < later.start
            &&& later.is_empty() ==> earlier.end < later.start
        }),
{
    yields_in_order(len, start(), finds);
    let earlier = yields(len, start(), finds)[i];
}

/// Of any two matches that a scan reports, the later one begins at or after
/// the end of the earlier one, and each of them is a span.
pub proof fn reported_in_order(len: nat, finds: Seq<Result<Span, Error>>, i: int, j: int)
    requires
        answered(len, start(), finds),
        0 <= i < j < yields(len, start(), finds).len(),
    ensures
        ({
            let earlier = yields(len, start(), finds)[i];
            let later = yields(len, start(), finds)[j];
            earlier.start <= earlier.end <= later.start <= later.end
        }),
    decreases j - i,
{
    yields_in_order(len, start(), finds);
    let ys = yields(len, start(), finds);
    let earlier = ys[i];
    let later = ys[j];
    if i + 1 < j {
        reported_in_order(len, finds, i, j - 1);
        let between = ys[j - 1];
        assert(ys[j - 1].end <= ys[j - 1 + 1].start);
    }
}

} // verus!
