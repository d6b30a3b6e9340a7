//! Configuration of MPC computations, networking and preprocessing, with
//! validation and environment-variable overrides (environment over file over
//! default).

pub mod validation;
pub mod env;

use vstd::prelude::*;
use crate::error::{Error, ErrorView, rview};
use crate::text::{concat_str, decimal, owned, parse_unsigned, parse_unsigned_exec, str_eq, IntParseError};
use crate::types::SocketAddress;
use self::validation::{threshold_in_range, validate_mpc_result};

verus! {

// ---------------------------------------------------------------------------
// Curve and backend
// ---------------------------------------------------------------------------

/// Elliptic curve for backends that need one; BLS12-381 by default.
#[derive(Clone, Copy, Debug, PartialEq, Eq, Structural)]
pub enum Curve {
    /// BLS12-381: 381-bit field, 128-bit security.
    Bls12_381,
    /// BN254: 254-bit field, about 100-bit security.
    Bn254,
    /// Curve25519: 255-bit field, 128-bit security.
    Curve25519,
    /// Ed25519: 255-bit field, 128-bit security.
    Ed25519,
}

impl Default for Curve {
    fn default() -> (c: Curve)
        ensures
            c == Curve::Bls12_381,
    {
        Curve::Bls12_381
    }
}

impl Curve {
    /// Bits of the curve's base field.
    pub fn field_bits(&self) -> (b: usize)
        ensures
            b == match *self {
                Curve::Bls12_381 => 381usize,
                Curve::Bn254 => 254usize,
                Curve::Curve25519 => 255usize,
                Curve::Ed25519 => 255usize,
            },
    {
        match self {
            Curve::Bls12_381 => 381,
            Curve::Bn254 => 254,
            Curve::Curve25519 => 255,
            Curve::Ed25519 => 255,
        }
    }

    /// Estimated security level in bits.
    pub fn security_bits(&self) -> (b: usize)
        ensures
            b == match *self {
                Curve::Bls12_381 => 128usize,
                Curve::Bn254 => 100usize,
                Curve::Curve25519 => 128usize,
                Curve::Ed25519 => 128usize,
            },
    {
        match self {
            Curve::Bls12_381 => 128,
            Curve::Bn254 => 100,
            Curve::Curve25519 => 128,
            Curve::Ed25519 => 128,
        }
    }
}

/// Backend protocol of a configuration; HoneyBadger by default.
#[derive(Clone, Copy, Debug, PartialEq, Eq, Structural)]
pub enum MpcBackendConfig {
    /// HoneyBadger Byzantine fault-tolerant protocol.
    HoneyBadger,
    /// Asynchronous verifiable secret sharing over `curve`.
    Avss { curve: Curve },
}

impl Default for MpcBackendConfig {
    fn default() -> (b: MpcBackendConfig)
        ensures
            b == MpcBackendConfig::HoneyBadger,
    {
        MpcBackendConfig::HoneyBadger
    }
}

// ---------------------------------------------------------------------------
// MpcConfig
// ---------------------------------------------------------------------------

/// The default number of parties.
pub fn default_parties() -> (n: usize)
    ensures
        n == 5,
{
    5
}

/// The default threshold.
pub fn default_threshold() -> (t: usize)
    ensures
        t == 1,
{
    1
}

/// Calls `rand::Rng::gen` on `rand::thread_rng()` for a fresh random
/// instance identifier. Nothing is claimed of the value: it is random.
#[verifier::external_body]
pub(crate) fn generate_instance_id() -> u64 {
    rand::Rng::gen(&mut rand::thread_rng())
}

/// Parameters of one MPC computation.
#[derive(Clone, Copy, Debug, PartialEq, Eq, Structural)]
pub struct MpcConfig {
    /// Number of server parties; at least four.
    pub parties: usize,
    /// Tolerated faulty parties; `parties >= 3 * threshold + 1`.
    pub threshold: usize,
    /// Identifier of the computation instance.
    pub instance_id: u64,
    /// Backend protocol.
    pub backend: MpcBackendConfig,
}

impl Default for MpcConfig {
    /// Five parties, threshold one, HoneyBadger, and a random instance id.
    fn default() -> (c: MpcConfig)
        ensures
            c.parties == 5,
            c.threshold == 1,
            c.backend == MpcBackendConfig::HoneyBadger,
    {
        MpcConfig {
            parties: default_parties(),
            threshold: default_threshold(),
            instance_id: generate_instance_id(),
            backend: MpcBackendConfig::HoneyBadger,
        }
    }
}

impl MpcConfig {
    /// Validates the parameters (see [`validation::validate_mpc`]).
    pub fn validate(&self) -> (r: Result<(), Error>)
        requires
            threshold_in_range(self.threshold),
        ensures
            rview(r) == validate_mpc_result(self.parties, self.threshold),
    {
        validation::validate_mpc(self.parties, self.threshold)
    }
}

// ---------------------------------------------------------------------------
// NetworkConfig
// ---------------------------------------------------------------------------

/// The default bind address, `0.0.0.0:9000`.
pub fn default_bind_address() -> (a: SocketAddress)
    ensures
        a == (SocketAddress::V4 { ip: 0, port: 9000 }),
{
    SocketAddress::V4 { ip: 0, port: 9000 }
}

/// The default consensus timeout in milliseconds.
pub fn default_consensus_timeout() -> (t: u64)
    ensures
        t == 30_000,
{
    30_000
}

/// Network settings of one party.
#[derive(Clone, Debug, PartialEq, Eq)]
pub struct NetworkConfig {
    /// This party's identifier.
    pub party_id: usize,
    /// Local listening address; `0.0.0.0:9000` by default.
    pub bind_address: SocketAddress,
    /// Optional dedicated MPC port.
    pub mpc_port: Option<u16>,
    /// Number of server parties expected.
    pub expected_parties: usize,
    /// Number of clients expected, if known.
    pub expected_clients: Option<usize>,
    /// Consensus timeout in milliseconds; 30 000 by default.
    pub consensus_timeout_ms: u64,
    /// Known peers: party identifier text and address text, each identifier
    /// at most once (see [`NetworkConfig::wf`]).
    pub peers: Vec<(String, String)>,
}

/// Whether no party identifier occurs twice among the peers: they form a
/// map from identifier to address.
pub open spec fn distinct_peer_ids(peers: Seq<(String, String)>) -> bool {
    forall|i: int, j: int| 0 <= i < j < peers.len() ==> #[trigger] peers[i].0@ != #[trigger] peers[j].0@
}

/// Whether `peers` lists `id`.
pub open spec fn lists_peer(peers: Seq<(String, String)>, id: Seq<char>) -> bool {
    exists|i: int| 0 <= i < peers.len() && #[trigger] peers[i].0@ == id
}

impl NetworkConfig {
    /// Well-formedness: each peer identifier occurs once.
    pub open spec fn wf(&self) -> bool {
        distinct_peer_ids(self.peers@)
    }

    /// The address of the peer `id`, when it is listed.
    pub fn peer_address(&self, id: &str) -> (r: Option<String>)
        ensures
            r is None <==> !lists_peer(self.peers@, id@),
            r matches Some(a) ==> exists|i: int| 0 <= i < self.peers@.len() && #[trigger] self.peers@[i].0@
                == id@ && a@ == self.peers@[i].1@,
            self.wf() ==> forall|i: int| 0 <= i < self.peers@.len() && #[trigger] self.peers@[i].0@
                == id@ ==> (r matches Some(a) && a@ == self.peers@[i].1@),
    {
        let mut k: usize = 0;
        while k < self.peers.len()
            invariant
                k <= self.peers@.len(),
                forall|i: int| 0 <= i < k ==> #[trigger] self.peers@[i].0@ != id@,
            decreases self.peers@.len() - k,
        {
            if str_eq(self.peers[k].0.as_str(), id) {
                let a = owned(self.peers[k].1.as_str());
                proof {
                    assert(self.peers@[k as int].0@ == id@);
                    if self.wf() {
                        assert forall|i: int| 0 <= i < self.peers@.len() && #[trigger] self.peers@[i].0@
                            == id@ implies i == k by {
                            if i < k {
                            } else if i > k {
                                assert(self.peers@[k as int].0@ != self.peers@[i].0@);
                            }
                        }
                    }
                }
                return Some(a);
            }
            k = k + 1;
        }
        None
    }

    /// Validates the settings (see [`validation::validate_network`]).
    pub fn validate(&self) -> (r: Result<(), Error>)
        ensures
            r is Ok <==> self.expected_parties >= 2,
            self.expected_parties < 2 ==> rview(r) == Err::<(), ErrorView>(ErrorView::Configuration(
                validation::too_few_expected_text(self.expected_parties),
            )),
    {
        validation::validate_network(self.expected_parties)
    }
}

// ---------------------------------------------------------------------------
// PreprocessingConfig
// ---------------------------------------------------------------------------

/// The default number of Beaver triples.
pub fn default_triples() -> (n: usize)
    ensures
        n == 1000,
{
    1000
}

/// The default number of random shares.
pub fn default_random_shares() -> (n: usize)
    ensures
        n == 500,
{
    500
}

/// The default regeneration threshold for triples.
pub fn default_min_triples() -> (n: usize)
    ensures
        n == 100,
{
    100
}

/// Whether preprocessing runs on startup by default.
pub fn default_generate_on_startup() -> (b: bool)
    ensures
        b,
{
    true
}

/// Preprocessing material to generate.
#[derive(Clone, Copy, Debug, PartialEq, Eq, Structural)]
pub struct PreprocessingConfig {
    /// Beaver triples to generate.
    pub triples: usize,
    /// Random shares to generate.
    pub random_shares: usize,
    /// Triples left before regeneration.
    pub min_triples: usize,
    /// Whether to generate on startup.
    pub generate_on_startup: bool,
}

impl Default for PreprocessingConfig {
    fn default() -> (c: PreprocessingConfig)
        ensures
            c == (PreprocessingConfig {
                triples: 1000,
                random_shares: 500,
                min_triples: 100,
                generate_on_startup: true,
            }),
    {
        PreprocessingConfig {
            triples: default_triples(),
            random_shares: default_random_shares(),
            min_triples: default_min_triples(),
            generate_on_startup: default_generate_on_startup(),
        }
    }
}

// ---------------------------------------------------------------------------
// StoffelConfig
// ---------------------------------------------------------------------------

/// The whole configuration of a party.
#[derive(Clone, Debug, PartialEq, Eq)]
pub struct StoffelConfig {
    /// MPC parameters.
    pub mpc: MpcConfig,
    /// Network settings.
    pub network: NetworkConfig,
    /// Preprocessing settings.
    pub preprocessing: PreprocessingConfig,
}

/// What [`StoffelConfig::validate`] returns: the MPC check, then the network check.
pub open spec fn stoffel_validate_result(c: StoffelConfig) -> Result<(), ErrorView> {
    match validate_mpc_result(c.mpc.parties, c.mpc.threshold) {
        Err(e) => Err(e),
        Ok(()) => if c.network.expected_parties < 2 {
            Err(ErrorView::Configuration(validation::too_few_expected_text(c.network.expected_parties)))
        } else {
            Ok(())
        },
    }
}

/// A configuration passes validation exactly when its MPC parameters have
/// at least four parties and at least `3t + 1` of them, and its network
/// expects at least two parties; with valid MPC parameters and too few
/// expected parties the error says so.
pub proof fn lemma_validation_checks_every_section(c: StoffelConfig)
    ensures
        stoffel_validate_result(c) is Ok <==> (c.mpc.parties >= 4 && c.mpc.parties >= 3 * c.mpc.threshold + 1
            && c.network.expected_parties >= 2),
        (c.mpc.parties >= 4 && c.mpc.parties >= 3 * c.mpc.threshold + 1 && c.network.expected_parties < 2)
            ==> stoffel_validate_result(c) == Err::<(), ErrorView>(ErrorView::Configuration(
            "expected_parties must be >= 2, got "@ + decimal(c.network.expected_parties as nat),
        )),
{
}

impl StoffelConfig {
    /// Validates every section.
    pub fn validate(&self) -> (r: Result<(), Error>)
        requires
            threshold_in_range(self.mpc.threshold),
        ensures
            rview(r) == stoffel_validate_result(*self),
            r is Ok <==> (self.mpc.parties >= 4 && self.mpc.parties >= 3 * self.mpc.threshold + 1
                && self.network.expected_parties >= 2),
    {
        self.mpc.validate()?;
        self.network.validate()?;
        Ok(())
    }
}

} // verus!
