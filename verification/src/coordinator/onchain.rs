//! A coordinator bound to an on-chain contract. Contract access is not
//! available: round queries fail with a computation error.

use vstd::prelude::*;
use super::Round;
use crate::error::{Error, ErrorView, rview};
use crate::text::owned;
use crate::types::ComputationId;

verus! {

/// Coordinator for a computation of an on-chain contract.
#[derive(Debug)]
pub struct OnChainCoordinator {
    contract_address: String,
    computation_id: ComputationId,
}

/// The message of every contract query.
pub open spec fn not_implemented_text() -> Seq<char> {
    "on-chain coordinator not yet implemented"@
}

impl OnChainCoordinator {
    /// The contract address.
    pub closed spec fn address_of(&self) -> Seq<char> {
        self.contract_address@
    }

    /// The computation tracked.
    pub closed spec fn computation_of(&self) -> ComputationId {
        self.computation_id
    }

    /// A coordinator for `computation_id` of the contract at `contract_address`.
    pub fn new(contract_address: String, computation_id: ComputationId) -> (c: Self)
        ensures
            c.address_of() == contract_address@,
            c.computation_of() == computation_id,
    {
        OnChainCoordinator { contract_address, computation_id }
    }

    /// The contract address.
    pub fn contract_address(&self) -> (s: &str)
        ensures
            s@ == self.address_of(),
    {
        self.contract_address.as_str()
    }

    /// The computation identifier.
    pub fn computation_id(&self) -> (c: ComputationId)
        ensures
            c == self.computation_of(),
    {
        self.computation_id
    }

    /// The current round of the contract; contract access is not available,
    /// so this fails.
    pub fn current_round(&self) -> (r: Result<Round, Error>)
        ensures
            rview(r) == Err::<Round, ErrorView>(ErrorView::Computation(not_implemented_text())),
    {
        Err(Error::Computation(owned("on-chain coordinator not yet implemented")))
    }

    /// Waits for a round of the contract; contract access is not available,
    /// so this fails.
    pub fn await_round(&self, _round: Round) -> (r: Result<(), Error>)
        ensures
            rview(r) == Err::<(), ErrorView>(ErrorView::Computation(not_implemented_text())),
    {
        Err(Error::Computation(owned("on-chain coordinator not yet implemented")))
    }
}

} // verus!
