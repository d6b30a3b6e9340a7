//! Choice of MPC protocol backend and the share types that engines exchange.

use vstd::prelude::*;

pub use crate::config::Curve;
pub use crate::types::PartyId;

verus! {

/// MPC protocol backend selection; HoneyBadger is the default and needs no curve.
#[derive(Clone, Copy, Debug, PartialEq, Eq, Structural)]
pub enum MpcBackend {
    /// HoneyBadger Byzantine fault-tolerant protocol.
    HoneyBadger,
    /// Asynchronous verifiable secret sharing over the given curve.
    Avss { curve: Curve },
}

impl Default for MpcBackend {
    fn default() -> (b: Self)
        ensures
            b == MpcBackend::HoneyBadger,
    {
        MpcBackend::HoneyBadger
    }
}

/// A secret share of one of the supported schemes.
#[derive(Clone, Debug)]
pub enum ShareType {
    /// A robust share (Reed-Solomon coded), used by HoneyBadger.
    Robust(RobustShare),
    /// A Feldman VSS share with its commitment, used by AVSS.
    Feldman(FeldmanShare),
}

/// A robust secret share with its error-correcting codeword.
#[derive(Clone, Debug)]
pub struct RobustShare {
    /// Serialized field element of the share.
    pub value: Vec<u8>,
    /// Reed-Solomon codeword used during reconstruction.
    pub codeword: Vec<u8>,
}

/// A Feldman VSS share together with the dealer's commitment.
#[derive(Clone, Debug)]
pub struct FeldmanShare {
    /// Serialized field element of the share.
    pub value: Vec<u8>,
    /// Polynomial commitment of the dealer.
    pub commitment: FeldmanCommitment,
    /// Zero-based evaluation index of this share.
    pub index: usize,
}

impl FeldmanShare {
    /// Checks this share against its commitment. No check is performed yet:
    /// every share is accepted.
    pub fn verify(&self) -> (ok: bool)
        ensures
            ok,
    {
        true
    }
}

/// A Feldman polynomial commitment: serialized points `g^{a_0} .. g^{a_t}`.
#[derive(Clone, Debug)]
pub struct FeldmanCommitment {
    /// Serialized group elements of the commitment.
    pub points: Vec<Vec<u8>>,
}

impl FeldmanCommitment {
    /// The public key, which is the first commitment point; `None` when there
    /// are no points.
    pub fn public_key(&self) -> (k: Option<&Vec<u8>>)
        ensures
            self.points.len() == 0 ==> k.is_none(),
            self.points.len() > 0 ==> k == Some(&self.points[0]),
    {
        if self.points.len() == 0 {
            None
        } else {
            Some(&self.points[0])
        }
    }
}

/// Opaque handle to a share held inside an MPC engine.
#[derive(Clone, Copy, Debug, PartialEq, Eq, Hash, Structural)]
pub struct ShareHandle(pub u64);

} // verus!
