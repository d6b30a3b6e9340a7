//! An in-memory coordinator holding the round state machine and the next
//! free input-mask index.

use vstd::prelude::*;
use super::{next_round, MaskIndex, Round};
use crate::error::{Error, ErrorView, rview};
use crate::text::owned;

verus! {

/// In-memory coordinator starting at [`Round::Preprocessing`].
#[derive(Debug)]
pub struct OffChainCoordinator {
    round: Round,
    next_mask_index: u64,
}

/// The message of advancing past the last round.
pub open spec fn past_last_round_text() -> Seq<char> {
    "cannot advance past OutputCollection round"@
}

/// The next free mask index after `k` reservations starting from `start`:
/// each reservation moves it on by one.
pub open spec fn next_mask_after(start: nat, k: nat) -> nat
    decreases k,
{
    if k == 0 {
        start
    } else {
        next_mask_after(start, (k - 1) as nat) + 1
    }
}

/// The indices that `k` successive reservations return, starting from
/// `start`: each returns the next free index at its time.
pub open spec fn reserved_indices(start: nat, k: nat) -> Seq<nat>
    decreases k,
{
    if k == 0 {
        Seq::empty()
    } else {
        reserved_indices(start, (k - 1) as nat).push(next_mask_after(start, (k - 1) as nat))
    }
}

/// Successive reservations from `start` hand out `start, start + 1, ...`:
/// every call succeeds while the index fits, the indices of `k` calls are
/// exactly `start .. start + k`, in increasing order and so pairwise
/// distinct, and the next free index is then `start + k`.
pub proof fn lemma_reservations_are_consecutive(start: nat, k: nat)
    ensures
        next_mask_after(start, k) == start + k,
        reserved_indices(start, k).len() == k,
        forall|i: int| 0 <= i < k ==> #[trigger] reserved_indices(start, k)[i] == start + i,
        forall|i: int, j: int| 0 <= i < j < k ==> reserved_indices(start, k)[i] < reserved_indices(
            start,
            k,
        )[j],
    decreases k,
{
    if k > 0 {
        lemma_reservations_are_consecutive(start, (k - 1) as nat);
        let prev = reserved_indices(start, (k - 1) as nat);
        assert(reserved_indices(start, k) == prev.push(next_mask_after(start, (k - 1) as nat)));
        assert forall|i: int| 0 <= i < k implies #[trigger] reserved_indices(start, k)[i] == start + i by {
            if i < k - 1 {
                assert(reserved_indices(start, k)[i] == prev[i]);
            }
        }
    }
}

impl OffChainCoordinator {
    /// The current round.
    pub closed spec fn round_of(&self) -> Round {
        self.round
    }

    /// The index the next reservation returns.
    pub closed spec fn next_mask(&self) -> u64 {
        self.next_mask_index
    }

    /// A coordinator at preprocessing with mask index 0 next.
    pub fn new() -> (c: Self)
        ensures
            c.round_of() == Round::Preprocessing,
            c.next_mask() == 0,
    {
        OffChainCoordinator { round: Round::Preprocessing, next_mask_index: 0 }
    }

    /// The current round (never fails).
    pub fn current_round(&self) -> (r: Result<Round, Error>)
        ensures
            r == Ok::<Round, Error>(self.round_of()),
    {
        Ok(self.round)
    }

    /// Moves to the next round and returns it; after the last round it fails
    /// with a computation error and the round stays.
    pub fn advance_round(&mut self) -> (r: Result<Round, Error>)
        ensures
            final(self).next_mask() == old(self).next_mask(),
            match next_round(old(self).round_of()) {
                Some(n) => r == Ok::<Round, Error>(n) && final(self).round_of() == n,
                None => rview(r) == Err::<Round, ErrorView>(ErrorView::Computation(past_last_round_text()))
                    && final(self).round_of() == old(self).round_of(),
            },
    {
        match self.round.next() {
            Some(n) => {
                self.round = n;
                Ok(n)
            },
            None => Err(Error::Computation(owned("cannot advance past OutputCollection round"))),
        }
    }

    /// Sets the current round.
    pub fn set_round(&mut self, round: Round)
        ensures
            final(self).round_of() == round,
            final(self).next_mask() == old(self).next_mask(),
    {
        self.round = round;
    }

    /// Reserves the next input-mask index; successive reservations return
    /// 0, 1, 2, ...
    pub fn reserve_input_mask(&mut self) -> (r: Result<MaskIndex, Error>)
        requires
            old(self).next_mask() < u64::MAX,
        ensures
            r == Ok::<MaskIndex, Error>(MaskIndex(old(self).next_mask())),
            final(self).next_mask() == old(self).next_mask() + 1,
            final(self).next_mask() == next_mask_after(old(self).next_mask() as nat, 1),
            final(self).round_of() == old(self).round_of(),
    {
        let idx = self.next_mask_index;
        self.next_mask_index = idx + 1;
        proof {
            reveal_with_fuel(next_mask_after, 2);
        }
        Ok(MaskIndex(idx))
    }
}

impl Default for OffChainCoordinator {
    fn default() -> (c: Self)
        ensures
            c.round_of() == Round::Preprocessing,
            c.next_mask() == 0,
    {
        Self::new()
    }
}

} // verus!
