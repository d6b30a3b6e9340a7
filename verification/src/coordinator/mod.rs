//! The round state machine that drives a computation, from preprocessing to
//! output collection, and the coordinators that hold it.

pub mod offchain;
pub mod onchain;
pub mod types;
pub mod client;

use vstd::prelude::*;

verus! {

/// One round of a computation. The rounds form a line:
/// `Preprocessing -> InputMaskReservation -> CollectingInputs ->
/// InputsCollectionEnd -> Execution -> ExecutionEnd -> OutputCollection`.
#[derive(Clone, Copy, Debug, PartialEq, Eq, Hash, Structural)]
pub enum Round {
    /// Preprocessing material is generated.
    Preprocessing,
    /// Clients reserve input masks.
    InputMaskReservation,
    /// Clients submit masked inputs.
    CollectingInputs,
    /// No more inputs are accepted.
    InputsCollectionEnd,
    /// Servers execute the protocol.
    Execution,
    /// Servers submit result shares.
    ExecutionEnd,
    /// Clients reconstruct their outputs.
    OutputCollection,
}

/// The position of a round on the line, from 0 to 6.
pub open spec fn round_index(r: Round) -> nat {
    match r {
        Round::Preprocessing => 0,
        Round::InputMaskReservation => 1,
        Round::CollectingInputs => 2,
        Round::InputsCollectionEnd => 3,
        Round::Execution => 4,
        Round::ExecutionEnd => 5,
        Round::OutputCollection => 6,
    }
}

/// The round at a position of the line.
pub open spec fn round_at(i: nat) -> Round {
    if i == 0 { Round::Preprocessing }
    else if i == 1 { Round::InputMaskReservation }
    else if i == 2 { Round::CollectingInputs }
    else if i == 3 { Round::InputsCollectionEnd }
    else if i == 4 { Round::Execution }
    else if i == 5 { Round::ExecutionEnd }
    else { Round::OutputCollection }
}

/// The round after `r`, or none after the last one.
pub open spec fn next_round(r: Round) -> Option<Round> {
    if round_index(r) < 6 { Some(round_at(round_index(r) + 1)) } else { None }
}

/// Whether clients act in the round.
pub open spec fn client_round(r: Round) -> bool {
    r == Round::InputMaskReservation || r == Round::CollectingInputs || r == Round::OutputCollection
}

/// Whether servers act in the round.
pub open spec fn server_round(r: Round) -> bool {
    r == Round::Preprocessing || r == Round::Execution
}

impl Round {
    /// The next round, or `None` after [`Round::OutputCollection`].
    pub fn next(&self) -> (r: Option<Round>)
        ensures
            r == next_round(*self),
    {
        match self {
            Round::Preprocessing => Some(Round::InputMaskReservation),
            Round::InputMaskReservation => Some(Round::CollectingInputs),
            Round::CollectingInputs => Some(Round::InputsCollectionEnd),
            Round::InputsCollectionEnd => Some(Round::Execution),
            Round::Execution => Some(Round::ExecutionEnd),
            Round::ExecutionEnd => Some(Round::OutputCollection),
            Round::OutputCollection => None,
        }
    }

    /// Whether clients act in this round: mask reservation, input
    /// collection and output collection.
    pub fn is_client_round(&self) -> (b: bool)
        ensures
            b == client_round(*self),
    {
        match self {
            Round::InputMaskReservation | Round::CollectingInputs | Round::OutputCollection => true,
            _ => false,
        }
    }

    /// Whether servers act in this round: preprocessing and execution.
    pub fn is_server_round(&self) -> (b: bool)
        ensures
            b == server_round(*self),
    {
        match self {
            Round::Preprocessing | Round::Execution => true,
            _ => false,
        }
    }
}

/// Positions and rounds correspond one to one.
pub proof fn lemma_round_index_bijective(r: Round, i: nat)
    ensures
        round_index(r) <= 6,
        round_at(round_index(r)) == r,
        i <= 6 ==> round_index(round_at(i)) == i,
{
}

/// The rounds form one line: each round but the last has a next round one
/// position further, the last has none, and only the first round is not
/// the next round of another.
pub proof fn lemma_rounds_are_linear(r: Round, s: Round)
    ensures
        next_round(r) is None <==> r == Round::OutputCollection,
        next_round(r) is Some ==> round_index(next_round(r)->0) == round_index(r) + 1,
        next_round(r) == Some(s) && next_round(s) is Some ==> next_round(s) != Some(r),
        (exists|p: Round| next_round(p) == Some(s)) <==> s != Round::Preprocessing,
{
    if s != Round::Preprocessing {
        let p = round_at((round_index(s) - 1) as nat);
        assert(next_round(p) == Some(s));
    }
}

/// `n` applications of `next` from round `r` (stopping at the last round).
pub open spec fn advance_n(r: Round, n: nat) -> Round
    decreases n,
{
    if n == 0 {
        r
    } else {
        match next_round(r) {
            Some(s) => advance_n(s, (n - 1) as nat),
            None => r,
        }
    }
}

/// From preprocessing, six steps reach output collection, passing every
/// round once in order.
pub proof fn lemma_six_steps_reach_output(k: nat)
    ensures
        k <= 6 ==> advance_n(Round::Preprocessing, k) == round_at(k),
        advance_n(Round::Preprocessing, 6) == Round::OutputCollection,
{
    reveal_with_fuel(advance_n, 8);
}

/// No round is both a client round and a server round, and the rounds of
/// neither kind are exactly the two boundary rounds.
pub proof fn lemma_round_roles(r: Round)
    ensures
        !(client_round(r) && server_round(r)),
        (!client_round(r) && !server_round(r)) <==> (r == Round::InputsCollectionEnd || r == Round::ExecutionEnd),
{
}

/// Index into the coordinator's input-mask table.
#[derive(Clone, Copy, Debug, PartialEq, Eq, Hash, Structural)]
pub struct MaskIndex(pub u64);

/// Notifications of coordinator state changes.
#[derive(Clone, Copy, Debug, PartialEq, Eq, Structural)]
pub enum CoordinatorEvent {
    /// The round changed.
    RoundChanged { from: Round, to: Round },
    /// A client reserved an input mask.
    MaskReserved { index: MaskIndex },
    /// A client submitted a masked input.
    InputSubmitted { index: MaskIndex },
    /// Preprocessing finished.
    PreprocessingDone,
    /// A server submitted a result share.
    ResultSubmitted,
    /// Output is ready for clients.
    OutputReady,
}

} // verus!
