//! The match data block: where the engine writes the offsets of a match, one
//! pair for the whole match and one for each capture group of the pattern.

use vstd::prelude::*;
use vstd::slice::slice_to_vec;

use crate::pattern::Pattern;

verus! {

/// What a [`MatchData`] holds.
pub struct MatchDataView {
    /// The address of the block.
    pub data: usize,
    /// The address of the compiled pattern that the block was sized from.
    pub pattern: usize,
    /// The number of offset pairs in the block.
    pub slots: nat,
    /// The offsets of the match recorded last, if one was recorded: pair `i`
    /// lies at `2 * i` and `2 * i + 1`.
    pub offsets: Option<Seq<usize>>,
}

impl MatchDataView {
    /// `offsets` are two for each pair of the block.
    pub open spec fn fits(self, offsets: Seq<usize>) -> bool {
        offsets.len() == 2 * self.slots
    }

    /// The block after the engine wrote `offsets` to it: they take the place of
    /// what was recorded, if they are two for each pair of the block.
    pub open spec fn written(self, offsets: Seq<usize>) -> MatchDataView {
        if self.fits(offsets) {
            MatchDataView { offsets: Some(offsets), ..self }
        } else {
            self
        }
    }
}

/// A match data block of the engine, known by its address, with the number of
/// offset pairs it holds and, once a match was recorded, the offsets themselves.
#[derive(Debug)]
pub struct MatchData {
    data: usize,
    pattern: usize,
    ovector: Vec<usize>,
    ovector_cnt: u32,
    populated: bool,
}

impl View for MatchData {
    type V = MatchDataView;

    closed spec fn view(&self) -> MatchDataView {
        MatchDataView {
            data: self.data,
            pattern: self.pattern,
            slots: self.ovector_cnt as nat,
            offsets: if self.populated {
                Some(self.ovector@)
            } else {
                None
            },
        }
    }
}

impl MatchData {
    #[verifier::type_invariant]
    spec fn shaped(&self) -> bool {
        &&& self.data != 0
        &&& self.pattern != 0
        &&& self.populated ==> self.ovector@.len() == 2 * self.ovector_cnt
    }

    /// Takes charge of the block that the engine allocated at `data` for
    /// `pattern`, with `ovector_cnt` offset pairs. No block can be made of a
    /// failed allocation. Nothing is recorded in it yet.
    pub fn new(pattern: &Pattern, data: usize, ovector_cnt: u32) -> (block: MatchData)
        requires
            data != 0,
        ensures
            block@ == (MatchDataView {
                data,
                pattern: pattern@.code,
                slots: ovector_cnt as nat,
                offsets: None,
            }),
    {
        MatchData {
            data,
            pattern: pattern.as_ptr(),
            ovector: Vec::new(),
            ovector_cnt,
            populated: false,
        }
    }

    /// The address to hand to the engine; it is never null.
    pub fn as_mut_ptr(&self) -> (data: usize)
        ensures
            data == self@.data,
            data != 0,
    {
        proof {
            use_type_invariant(self);
        }
        self.data
    }

    /// The number of offset pairs in the block.
    pub fn ovector_count(&self) -> (count: u32)
        ensures
            count == self@.slots,
    {
        self.ovector_cnt
    }

    /// The offsets of the match recorded last, two for each pair of the block.
    /// There is nothing to read before a match was recorded.
    pub fn ovector(&self) -> (offsets: &[usize])
        requires
            self@.offsets is Some,
        ensures
            Some(offsets@) == self@.offsets,
            offsets@.len() == 2 * self@.slots,
    {
        proof {
            use_type_invariant(self);
        }
        self.ovector.as_slice()
    }

    /// Records what the engine wrote for a match, in place of what was
    /// recorded before. Offsets that are not two for each pair of the block
    /// are not taken, and the block stays as it was.
    pub fn overwrite(&mut self, offsets: &[usize]) -> (taken: bool)
        ensures
            taken == old(self)@.fits(offsets@),
            final(self)@ == old(self)@.written(offsets@),
    {
        proof {
            use_type_invariant(&*self);
        }
        if offsets.len() % 2 != 0 || offsets.len() / 2 != self.ovector_cnt as usize {
            return false;
        }
        self.ovector = slice_to_vec(offsets);
        self.populated = true;
        true
    }
}

} // verus!
