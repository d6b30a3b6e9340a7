//! Environment-variable overrides of a [`StoffelConfig`], applied in a fixed
//! order; the first value that cannot be read stops the application with a
//! configuration error, keeping the overrides applied before it.

use vstd::prelude::*;
use crate::error::{Error, ErrorView, rview};
use crate::text::{concat_str, decimal, lemma_parse_unsigned_bound, owned, parse_unsigned, parse_unsigned_exec, str_eq, IntParseError};
use crate::types::SocketAddress;
use super::{Curve, MpcBackendConfig, MpcConfig, NetworkConfig, PreprocessingConfig, StoffelConfig};

verus! {

/// The values of the `STOFFEL_*` variables that are set. The bind address
/// comes with the socket address its text was read as, if any.
#[derive(Clone, Debug)]
pub struct EnvOverrides {
    /// `STOFFEL_PARTIES`
    pub parties: Option<String>,
    /// `STOFFEL_THRESHOLD`
    pub threshold: Option<String>,
    /// `STOFFEL_INSTANCE_ID`
    pub instance_id: Option<String>,
    /// `STOFFEL_BACKEND`
    pub backend: Option<String>,
    /// `STOFFEL_CURVE`
    pub curve: Option<String>,
    /// `STOFFEL_PARTY_ID`
    pub party_id: Option<String>,
    /// `STOFFEL_BIND_ADDRESS`, with the address read from it
    pub bind_address: Option<(String, Option<SocketAddress>)>,
    /// `STOFFEL_MPC_PORT`
    pub mpc_port: Option<String>,
    /// `STOFFEL_EXPECTED_PARTIES`
    pub expected_parties: Option<String>,
    /// `STOFFEL_CONSENSUS_TIMEOUT_MS`
    pub consensus_timeout_ms: Option<String>,
    /// `STOFFEL_TRIPLES`
    pub triples: Option<String>,
    /// `STOFFEL_RANDOM_SHARES`
    pub random_shares: Option<String>,
    /// `STOFFEL_MIN_TRIPLES`
    pub min_triples: Option<String>,
    /// `STOFFEL_GENERATE_ON_STARTUP`
    pub generate_on_startup: Option<String>,
}

impl EnvOverrides {
    /// No variable set.
    pub fn none() -> (e: EnvOverrides)
        ensures
            e.parties is None, e.threshold is None, e.instance_id is None,
            e.backend is None, e.curve is None, e.party_id is None,
            e.bind_address is None, e.mpc_port is None, e.expected_parties is None,
            e.consensus_timeout_ms is None, e.triples is None, e.random_shares is None,
            e.min_triples is None, e.generate_on_startup is None,
    {
        EnvOverrides {
            parties: None,
            threshold: None,
            instance_id: None,
            backend: None,
            curve: None,
            party_id: None,
            bind_address: None,
            mpc_port: None,
            expected_parties: None,
            consensus_timeout_ms: None,
            triples: None,
            random_shares: None,
            min_triples: None,
            generate_on_startup: None,
        }
    }
}

/// The lowercase form of a text (`str::to_lowercase`).
pub uninterp spec fn lowercase(s: Seq<char>) -> Seq<char>;

/// Whether every character of a text is ASCII.
pub open spec fn is_ascii_text(s: Seq<char>) -> bool {
    forall|i: int| 0 <= i < s.len() ==> (#[trigger] s[i] as int) < 128
}

/// The ASCII lowercase form of a character: `A`-`Z` become `a`-`z`, every
/// other character stays.
pub open spec fn ascii_lower_char(c: char) -> char {
    if 'A' <= c && c <= 'Z' {
        ((c as int) + 32) as char
    } else {
        c
    }
}

/// A text with each character put in ASCII lowercase.
pub open spec fn ascii_lowercase(s: Seq<char>) -> Seq<char> {
    s.map_values(|c: char| ascii_lower_char(c))
}

/// The lowercase form of a text: character by character for ASCII text,
/// else as [`lowercase`] names it.
pub open spec fn lowered(s: Seq<char>) -> Seq<char> {
    if is_ascii_text(s) {
        ascii_lowercase(s)
    } else {
        lowercase(s)
    }
}

/// Returns the lowercase form of `s` (`str::to_lowercase`, which lowercases
/// by the Unicode `Lowercase` property). The contract names the result and
/// states what the documentation gives for ASCII text: each character maps
/// to its ASCII lowercase form (`A`-`Z` to `a`-`z`, the rest unchanged), as
/// `to_ascii_lowercase` does.
#[verifier::external_body]
fn to_lowercase(s: &str) -> (r: String)
    ensures
        r@ == lowercase(s@),
        is_ascii_text(s@) ==> r@ == ascii_lowercase(s@),
{
    s.to_lowercase()
}

/// The text of a `ParseIntError`.
pub open spec fn int_error_text(e: IntParseError) -> Seq<char> {
    match e {
        IntParseError::Empty => "cannot parse integer from empty string"@,
        IntParseError::InvalidDigit => "invalid digit found in string"@,
        IntParseError::PosOverflow => "number too large to fit in target type"@,
    }
}

fn int_error_message(e: IntParseError) -> (s: String)
    ensures
        s@ == int_error_text(e),
{
    match e {
        IntParseError::Empty => owned("cannot parse integer from empty string"),
        IntParseError::InvalidDigit => owned("invalid digit found in string"),
        IntParseError::PosOverflow => owned("number too large to fit in target type"),
    }
}

/// Reading variable `var` with text `val` as an unsigned number at most `max`.
pub open spec fn parse_env_result(var: Seq<char>, val: Seq<char>, max: nat) -> Result<nat, ErrorView> {
    match parse_unsigned(val, max) {
        Ok(n) => Ok(n),
        Err(e) => Err(ErrorView::Configuration(
            var + ": invalid value '"@ + val + "': "@ + int_error_text(e),
        )),
    }
}

/// Reads an unsigned number no larger than `max` from an override.
pub fn parse_env(var: &str, val: &str, max: u64) -> (r: Result<u64, Error>)
    ensures
        match parse_env_result(var@, val@, max as nat) {
            Ok(n) => r matches Ok(v) && v as nat == n,
            Err(e) => r matches Err(x) && x@ == e,
        },
{
    match parse_unsigned_exec(val, max) {
        Ok(v) => Ok(v),
        Err(e) => {
            let m = concat_str(concat_str(owned(var), ": invalid value '"), val);
            let m = concat_str(concat_str(m, "': "), int_error_message(e).as_str());
            Err(Error::Configuration(m))
        },
    }
}

// ---------------------------------------------------------------------------
// The steps
// ---------------------------------------------------------------------------

/// The message for an unknown backend name.
pub open spec fn unknown_backend_text(lowered: Seq<char>) -> Seq<char> {
    "STOFFEL_BACKEND: unknown backend '"@ + lowered + "', expected 'honeybadger' or 'avss'"@
}

/// The message for an unknown curve name.
pub open spec fn unknown_curve_text(lowered: Seq<char>) -> Seq<char> {
    "STOFFEL_CURVE: unknown curve '"@ + lowered
        + "', expected one of: bls12-381, bn254, curve25519, ed25519"@
}

/// The message for an unreadable bind address.
pub open spec fn bad_address_text(val: Seq<char>) -> Seq<char> {
    "STOFFEL_BIND_ADDRESS: invalid address '"@ + val + "': invalid socket address syntax"@
}

/// The message for an unreadable boolean.
pub open spec fn bad_bool_text(lowered: Seq<char>) -> Seq<char> {
    "STOFFEL_GENERATE_ON_STARTUP: expected boolean, got '"@ + lowered + "'"@
}

/// The backend named by a lowercased override, keeping the curve of an
/// AVSS backend.
pub open spec fn backend_named(lowered: Seq<char>, current: MpcBackendConfig) -> Option<MpcBackendConfig> {
    if lowered == "honeybadger"@ {
        Some(MpcBackendConfig::HoneyBadger)
    } else if lowered == "avss"@ {
        Some(match current {
            MpcBackendConfig::Avss { curve } => MpcBackendConfig::Avss { curve },
            MpcBackendConfig::HoneyBadger => MpcBackendConfig::Avss { curve: Curve::Bls12_381 },
        })
    } else {
        None
    }
}

/// The curve named by a lowercased override.
pub open spec fn curve_named(lowered: Seq<char>) -> Option<Curve> {
    if lowered == "bls12-381"@ || lowered == "bls12_381"@ {
        Some(Curve::Bls12_381)
    } else if lowered == "bn254"@ {
        Some(Curve::Bn254)
    } else if lowered == "curve25519"@ {
        Some(Curve::Curve25519)
    } else if lowered == "ed25519"@ {
        Some(Curve::Ed25519)
    } else {
        None
    }
}

/// The boolean named by a lowercased override.
pub open spec fn bool_named(lowered: Seq<char>) -> Option<bool> {
    if lowered == "true"@ || lowered == "1"@ || lowered == "yes"@ {
        Some(true)
    } else if lowered == "false"@ || lowered == "0"@ || lowered == "no"@ {
        Some(false)
    } else {
        None
    }
}

/// One numeric override: read `v` as a number at most `max` and store it with `set`.
pub open spec fn numeric_step(
    c: StoffelConfig,
    var: Seq<char>,
    v: Option<String>,
    max: nat,
    set: spec_fn(StoffelConfig, nat) -> StoffelConfig,
) -> Result<StoffelConfig, ErrorView> {
    match v {
        None => Ok(c),
        Some(s) => match parse_env_result(var, s@, max) {
            Ok(n) => Ok(set(c, n)),
            Err(e) => Err(e),
        },
    }
}

/// The backend override.
pub open spec fn backend_step(c: StoffelConfig, v: Option<String>) -> Result<StoffelConfig, ErrorView> {
    match v {
        None => Ok(c),
        Some(s) => match backend_named(lowered(s@), c.mpc.backend) {
            Some(b) => Ok(StoffelConfig { mpc: MpcConfig { backend: b, ..c.mpc }, ..c }),
            None => Err(ErrorView::Configuration(unknown_backend_text(lowered(s@)))),
        },
    }
}

/// The curve override, which selects AVSS with that curve.
pub open spec fn curve_step(c: StoffelConfig, v: Option<String>) -> Result<StoffelConfig, ErrorView> {
    match v {
        None => Ok(c),
        Some(s) => match curve_named(lowered(s@)) {
            Some(k) => Ok(StoffelConfig {
                mpc: MpcConfig { backend: MpcBackendConfig::Avss { curve: k }, ..c.mpc },
                ..c
            }),
            None => Err(ErrorView::Configuration(unknown_curve_text(lowered(s@)))),
        },
    }
}

/// The bind-address override.
pub open spec fn bind_step(c: StoffelConfig, v: Option<(String, Option<SocketAddress>)>) -> Result<StoffelConfig, ErrorView> {
    match v {
        None => Ok(c),
        Some((s, parsed)) => match parsed {
            Some(a) => Ok(StoffelConfig { network: NetworkConfig { bind_address: a, ..c.network }, ..c }),
            None => Err(ErrorView::Configuration(bad_address_text(s@))),
        },
    }
}

/// The generate-on-startup override.
pub open spec fn startup_step(c: StoffelConfig, v: Option<String>) -> Result<StoffelConfig, ErrorView> {
    match v {
        None => Ok(c),
        Some(s) => match bool_named(lowered(s@)) {
            Some(b) => Ok(StoffelConfig {
                preprocessing: PreprocessingConfig { generate_on_startup: b, ..c.preprocessing },
                ..c
            }),
            None => Err(ErrorView::Configuration(bad_bool_text(lowered(s@)))),
        },
    }
}

/// Runs `step` on the configuration unless an earlier step failed.
pub open spec fn then(
    acc: (StoffelConfig, Result<(), ErrorView>),
    step: spec_fn(StoffelConfig) -> Result<StoffelConfig, ErrorView>,
) -> (StoffelConfig, Result<(), ErrorView>) {
    match acc.1 {
        Err(_) => acc,
        Ok(()) => match step(acc.0) {
            Ok(c) => (c, Ok(())),
            Err(e) => (acc.0, Err(e)),
        },
    }
}

pub open spec fn set_parties(c: StoffelConfig, n: nat) -> StoffelConfig {
    StoffelConfig { mpc: MpcConfig { parties: n as usize, ..c.mpc }, ..c }
}

pub open spec fn set_threshold(c: StoffelConfig, n: nat) -> StoffelConfig {
    StoffelConfig { mpc: MpcConfig { threshold: n as usize, ..c.mpc }, ..c }
}

pub open spec fn set_instance_id(c: StoffelConfig, n: nat) -> StoffelConfig {
    StoffelConfig { mpc: MpcConfig { instance_id: n as u64, ..c.mpc }, ..c }
}

pub open spec fn set_party_id(c: StoffelConfig, n: nat) -> StoffelConfig {
    StoffelConfig { network: NetworkConfig { party_id: n as usize, ..c.network }, ..c }
}

pub open spec fn set_mpc_port(c: StoffelConfig, n: nat) -> StoffelConfig {
    StoffelConfig { network: NetworkConfig { mpc_port: Some(n as u16), ..c.network }, ..c }
}

pub open spec fn set_expected_parties(c: StoffelConfig, n: nat) -> StoffelConfig {
    StoffelConfig { network: NetworkConfig { expected_parties: n as usize, ..c.network }, ..c }
}

pub open spec fn set_consensus_timeout(c: StoffelConfig, n: nat) -> StoffelConfig {
    StoffelConfig { network: NetworkConfig { consensus_timeout_ms: n as u64, ..c.network }, ..c }
}

pub open spec fn set_triples(c: StoffelConfig, n: nat) -> StoffelConfig {
    StoffelConfig { preprocessing: PreprocessingConfig { triples: n as usize, ..c.preprocessing }, ..c }
}

pub open spec fn set_random_shares(c: StoffelConfig, n: nat) -> StoffelConfig {
    StoffelConfig { preprocessing: PreprocessingConfig { random_shares: n as usize, ..c.preprocessing }, ..c }
}

pub open spec fn set_min_triples(c: StoffelConfig, n: nat) -> StoffelConfig {
    StoffelConfig { preprocessing: PreprocessingConfig { min_triples: n as usize, ..c.preprocessing }, ..c }
}

/// All overrides, in order: parties, threshold, instance id, backend, curve,
/// party id, bind address, MPC port, expected parties, consensus timeout,
/// triples, random shares, minimum triples, generate on startup. The result
/// is the configuration after the overrides that succeeded and the outcome.
pub open spec fn env_applied(c: StoffelConfig, env: EnvOverrides) -> (StoffelConfig, Result<(), ErrorView>) {
    let a10 = env_applied_before_preprocessing(c, env);
    let a11 = then(a10, |x: StoffelConfig| numeric_step(x, "STOFFEL_TRIPLES"@, env.triples, usize::MAX as nat, |y: StoffelConfig, n: nat| set_triples(y, n)));
    let a12 = then(a11, |x: StoffelConfig| numeric_step(x, "STOFFEL_RANDOM_SHARES"@, env.random_shares, usize::MAX as nat, |y: StoffelConfig, n: nat| set_random_shares(y, n)));
    let a13 = then(a12, |x: StoffelConfig| numeric_step(x, "STOFFEL_MIN_TRIPLES"@, env.min_triples, usize::MAX as nat, |y: StoffelConfig, n: nat| set_min_triples(y, n)));
    then(a13, |x: StoffelConfig| startup_step(x, env.generate_on_startup))
}

/// The configuration before the overrides that follow the consensus
/// timeout one, and whether all earlier overrides succeeded.
pub open spec fn env_applied_before_preprocessing(c: StoffelConfig, env: EnvOverrides) -> (
    StoffelConfig,
    Result<(), ErrorView>,
) {
    let a0 = (c, Ok(()));
    let a1 = then(a0, |x: StoffelConfig| numeric_step(x, "STOFFEL_PARTIES"@, env.parties, usize::MAX as nat, |y: StoffelConfig, n: nat| set_parties(y, n)));
    let a2 = then(a1, |x: StoffelConfig| numeric_step(x, "STOFFEL_THRESHOLD"@, env.threshold, usize::MAX as nat, |y: StoffelConfig, n: nat| set_threshold(y, n)));
    let a3 = then(a2, |x: StoffelConfig| numeric_step(x, "STOFFEL_INSTANCE_ID"@, env.instance_id, u64::MAX as nat, |y: StoffelConfig, n: nat| set_instance_id(y, n)));
    let a4 = then(a3, |x: StoffelConfig| backend_step(x, env.backend));
    let a5 = then(a4, |x: StoffelConfig| curve_step(x, env.curve));
    let a6 = then(a5, |x: StoffelConfig| numeric_step(x, "STOFFEL_PARTY_ID"@, env.party_id, usize::MAX as nat, |y: StoffelConfig, n: nat| set_party_id(y, n)));
    let a7 = then(a6, |x: StoffelConfig| bind_step(x, env.bind_address));
    let a8 = then(a7, |x: StoffelConfig| numeric_step(x, "STOFFEL_MPC_PORT"@, env.mpc_port, u16::MAX as nat, |y: StoffelConfig, n: nat| set_mpc_port(y, n)));
    let a9 = then(a8, |x: StoffelConfig| numeric_step(x, "STOFFEL_EXPECTED_PARTIES"@, env.expected_parties, usize::MAX as nat, |y: StoffelConfig, n: nat| set_expected_parties(y, n)));
    then(a9, |x: StoffelConfig| numeric_step(x, "STOFFEL_CONSENSUS_TIMEOUT_MS"@, env.consensus_timeout_ms, u64::MAX as nat, |y: StoffelConfig, n: nat| set_consensus_timeout(y, n)))
}

proof fn lemma_early_overrides_keep_preprocessing(c: StoffelConfig, env: EnvOverrides)
    ensures
        env_applied_before_preprocessing(c, env).0.preprocessing == c.preprocessing,
{
}

/// The preprocessing settings after the overrides, when they all succeed:
/// `STOFFEL_TRIPLES`, `STOFFEL_RANDOM_SHARES` and `STOFFEL_MIN_TRIPLES` each
/// set their own field to the number they hold, a field whose variable is
/// not set keeps its value, and no other override touches them.
pub proof fn lemma_preprocessing_overrides(c: StoffelConfig, env: EnvOverrides)
    requires
        env_applied(c, env).1 is Ok,
    ensures
        env.triples is None ==> env_applied(c, env).0.preprocessing.triples == c.preprocessing.triples,
        env.triples matches Some(s) ==> (parse_unsigned(s@, usize::MAX as nat) matches Ok(n)
            && env_applied(c, env).0.preprocessing.triples == n),
        env.random_shares is None ==> env_applied(c, env).0.preprocessing.random_shares == c.preprocessing.random_shares,
        env.random_shares matches Some(s) ==> (parse_unsigned(s@, usize::MAX as nat) matches Ok(n)
            && env_applied(c, env).0.preprocessing.random_shares == n),
        env.min_triples is None ==> env_applied(c, env).0.preprocessing.min_triples == c.preprocessing.min_triples,
        env.min_triples matches Some(s) ==> (parse_unsigned(s@, usize::MAX as nat) matches Ok(n)
            && env_applied(c, env).0.preprocessing.min_triples == n),
{
    lemma_early_overrides_keep_preprocessing(c, env);
    if let Some(s) = env.triples {
        lemma_parse_unsigned_bound(s@, usize::MAX as nat);
    }
    if let Some(s) = env.random_shares {
        lemma_parse_unsigned_bound(s@, usize::MAX as nat);
    }
    if let Some(s) = env.min_triples {
        lemma_parse_unsigned_bound(s@, usize::MAX as nat);
    }
    let a10 = env_applied_before_preprocessing(c, env);
    assert(a10.0.preprocessing == c.preprocessing);
    assert(a10.1 is Ok) by {
        if a10.1 is Err {
            assert(env_applied(c, env).1 == a10.1);
        }
    }
    let t = numeric_step(a10.0, "STOFFEL_TRIPLES"@, env.triples, usize::MAX as nat, |y: StoffelConfig, n: nat| set_triples(y, n));
    assert(t is Ok) by {
        if t is Err {
            assert(env_applied(c, env).1 is Err);
        }
    }
    let c11 = t->Ok_0;
    let r = numeric_step(c11, "STOFFEL_RANDOM_SHARES"@, env.random_shares, usize::MAX as nat, |y: StoffelConfig, n: nat| set_random_shares(y, n));
    assert(r is Ok) by {
        if r is Err {
            assert(env_applied(c, env).1 is Err);
        }
    }
    let c12 = r->Ok_0;
    let m = numeric_step(c12, "STOFFEL_MIN_TRIPLES"@, env.min_triples, usize::MAX as nat, |y: StoffelConfig, n: nat| set_min_triples(y, n));
    assert(m is Ok) by {
        if m is Err {
            assert(env_applied(c, env).1 is Err);
        }
    }
    let c13 = m->Ok_0;
    let g = startup_step(c13, env.generate_on_startup);
    assert(g is Ok);
    assert(env_applied(c, env).0 == g->Ok_0);
    assert(c11.preprocessing.random_shares == c.preprocessing.random_shares);
    assert(c11.preprocessing.min_triples == c.preprocessing.min_triples);
    assert(c12.preprocessing.triples == c11.preprocessing.triples);
    assert(c12.preprocessing.min_triples == c.preprocessing.min_triples);
    assert(c13.preprocessing.triples == c11.preprocessing.triples);
    assert(c13.preprocessing.random_shares == c12.preprocessing.random_shares);
    assert(g->Ok_0.preprocessing.triples == c13.preprocessing.triples);
    assert(g->Ok_0.preprocessing.random_shares == c13.preprocessing.random_shares);
}

/// The postcondition of one step.
pub open spec fn step_done(
    before: StoffelConfig,
    after: StoffelConfig,
    r: Result<(), Error>,
    expected: Result<StoffelConfig, ErrorView>,
) -> bool {
    match expected {
        Ok(c) => r is Ok && after == c,
        Err(e) => rview(r) == Err::<(), ErrorView>(e) && after == before,
    }
}


fn parse_opt(var: &str, v: &Option<String>, max: u64) -> (r: Result<Option<u64>, Error>)
    ensures
        match *v {
            None => r == Ok::<Option<u64>, Error>(None),
            Some(s) => match parse_env_result(var@, s@, max as nat) {
                Ok(n) => r matches Ok(Some(x)) && x as nat == n,
                Err(e) => r matches Err(x) && x@ == e,
            },
        },
{
    match v {
        None => Ok(None),
        Some(s) => match parse_env(var, s.as_str(), max) {
            Ok(n) => Ok(Some(n)),
            Err(e) => Err(e),
        },
    }
}

impl StoffelConfig {

    fn step_parties(&mut self, v: &Option<String>) -> (r: Result<(), Error>)
        ensures
            step_done(*old(self), *final(self), r, numeric_step(*old(self), "STOFFEL_PARTIES"@, *v, usize::MAX as nat, |y: StoffelConfig, n: nat| set_parties(y, n))),
    {
        proof { reveal_strlit("STOFFEL_PARTIES"); }
        match parse_opt("STOFFEL_PARTIES", v, usize::MAX as u64) {
            Err(e) => Err(e),
            Ok(Some(n)) => {
                self.mpc.parties = n as usize;
                Ok(())
            },
            Ok(None) => Ok(()),
        }
    }

    fn step_threshold(&mut self, v: &Option<String>) -> (r: Result<(), Error>)
        ensures
            step_done(*old(self), *final(self), r, numeric_step(*old(self), "STOFFEL_THRESHOLD"@, *v, usize::MAX as nat, |y: StoffelConfig, n: nat| set_threshold(y, n))),
    {
        proof { reveal_strlit("STOFFEL_THRESHOLD"); }
        match parse_opt("STOFFEL_THRESHOLD", v, usize::MAX as u64) {
            Err(e) => Err(e),
            Ok(Some(n)) => {
                self.mpc.threshold = n as usize;
                Ok(())
            },
            Ok(None) => Ok(()),
        }
    }

    fn step_instance_id(&mut self, v: &Option<String>) -> (r: Result<(), Error>)
        ensures
            step_done(*old(self), *final(self), r, numeric_step(*old(self), "STOFFEL_INSTANCE_ID"@, *v, u64::MAX as nat, |y: StoffelConfig, n: nat| set_instance_id(y, n))),
    {
        proof { reveal_strlit("STOFFEL_INSTANCE_ID"); }
        match parse_opt("STOFFEL_INSTANCE_ID", v, u64::MAX as u64) {
            Err(e) => Err(e),
            Ok(Some(n)) => {
                self.mpc.instance_id = n as u64;
                Ok(())
            },
            Ok(None) => Ok(()),
        }
    }

    fn step_party_id(&mut self, v: &Option<String>) -> (r: Result<(), Error>)
        ensures
            step_done(*old(self), *final(self), r, numeric_step(*old(self), "STOFFEL_PARTY_ID"@, *v, usize::MAX as nat, |y: StoffelConfig, n: nat| set_party_id(y, n))),
    {
        proof { reveal_strlit("STOFFEL_PARTY_ID"); }
        match parse_opt("STOFFEL_PARTY_ID", v, usize::MAX as u64) {
            Err(e) => Err(e),
            Ok(Some(n)) => {
                self.network.party_id = n as usize;
                Ok(())
            },
            Ok(None) => Ok(()),
        }
    }

    fn step_mpc_port(&mut self, v: &Option<String>) -> (r: Result<(), Error>)
        ensures
            step_done(*old(self), *final(self), r, numeric_step(*old(self), "STOFFEL_MPC_PORT"@, *v, u16::MAX as nat, |y: StoffelConfig, n: nat| set_mpc_port(y, n))),
    {
        proof { reveal_strlit("STOFFEL_MPC_PORT"); }
        match parse_opt("STOFFEL_MPC_PORT", v, u16::MAX as u64) {
            Err(e) => Err(e),
            Ok(Some(n)) => {
                self.network.mpc_port = Some(n as u16);
                Ok(())
            },
            Ok(None) => Ok(()),
        }
    }

    fn step_expected_parties(&mut self, v: &Option<String>) -> (r: Result<(), Error>)
        ensures
            step_done(*old(self), *final(self), r, numeric_step(*old(self), "STOFFEL_EXPECTED_PARTIES"@, *v, usize::MAX as nat, |y: StoffelConfig, n: nat| set_expected_parties(y, n))),
    {
        proof { reveal_strlit("STOFFEL_EXPECTED_PARTIES"); }
        match parse_opt("STOFFEL_EXPECTED_PARTIES", v, usize::MAX as u64) {
            Err(e) => Err(e),
            Ok(Some(n)) => {
                self.network.expected_parties = n as usize;
                Ok(())
            },
            Ok(None) => Ok(()),
        }
    }

    fn step_consensus_timeout_ms(&mut self, v: &Option<String>) -> (r: Result<(), Error>)
        ensures
            step_done(*old(self), *final(self), r, numeric_step(*old(self), "STOFFEL_CONSENSUS_TIMEOUT_MS"@, *v, u64::MAX as nat, |y: StoffelConfig, n: nat| set_consensus_timeout(y, n))),
    {
        proof { reveal_strlit("STOFFEL_CONSENSUS_TIMEOUT_MS"); }
        match parse_opt("STOFFEL_CONSENSUS_TIMEOUT_MS", v, u64::MAX as u64) {
            Err(e) => Err(e),
            Ok(Some(n)) => {
                self.network.consensus_timeout_ms = n as u64;
                Ok(())
            },
            Ok(None) => Ok(()),
        }
    }

    fn step_triples(&mut self, v: &Option<String>) -> (r: Result<(), Error>)
        ensures
            step_done(*old(self), *final(self), r, numeric_step(*old(self), "STOFFEL_TRIPLES"@, *v, usize::MAX as nat, |y: StoffelConfig, n: nat| set_triples(y, n))),
    {
        proof { reveal_strlit("STOFFEL_TRIPLES"); }
        match parse_opt("STOFFEL_TRIPLES", v, usize::MAX as u64) {
            Err(e) => Err(e),
            Ok(Some(n)) => {
                self.preprocessing.triples = n as usize;
                Ok(())
            },
            Ok(None) => Ok(()),
        }
    }

    fn step_random_shares(&mut self, v: &Option<String>) -> (r: Result<(), Error>)
        ensures
            step_done(*old(self), *final(self), r, numeric_step(*old(self), "STOFFEL_RANDOM_SHARES"@, *v, usize::MAX as nat, |y: StoffelConfig, n: nat| set_random_shares(y, n))),
    {
        proof { reveal_strlit("STOFFEL_RANDOM_SHARES"); }
        match parse_opt("STOFFEL_RANDOM_SHARES", v, usize::MAX as u64) {
            Err(e) => Err(e),
            Ok(Some(n)) => {
                self.preprocessing.random_shares = n as usize;
                Ok(())
            },
            Ok(None) => Ok(()),
        }
    }

    fn step_min_triples(&mut self, v: &Option<String>) -> (r: Result<(), Error>)
        ensures
            step_done(*old(self), *final(self), r, numeric_step(*old(self), "STOFFEL_MIN_TRIPLES"@, *v, usize::MAX as nat, |y: StoffelConfig, n: nat| set_min_triples(y, n))),
    {
        proof { reveal_strlit("STOFFEL_MIN_TRIPLES"); }
        match parse_opt("STOFFEL_MIN_TRIPLES", v, usize::MAX as u64) {
            Err(e) => Err(e),
            Ok(Some(n)) => {
                self.preprocessing.min_triples = n as usize;
                Ok(())
            },
            Ok(None) => Ok(()),
        }
    }

    fn step_backend(&mut self, v: &Option<String>) -> (r: Result<(), Error>)
        ensures
            step_done(*old(self), *final(self), r, backend_step(*old(self), *v)),
    {
        match v {
            None => Ok(()),
            Some(s) => {
                let low = to_lowercase(s.as_str());
                proof {
                    reveal_strlit("honeybadger");
                    reveal_strlit("avss");
                }
                if str_eq(low.as_str(), "honeybadger") {
                    self.mpc.backend = MpcBackendConfig::HoneyBadger;
                    Ok(())
                } else if str_eq(low.as_str(), "avss") {
                    let curve = match self.mpc.backend {
                        MpcBackendConfig::Avss { curve } => curve,
                        MpcBackendConfig::HoneyBadger => Curve::Bls12_381,
                    };
                    self.mpc.backend = MpcBackendConfig::Avss { curve };
                    Ok(())
                } else {
                    let m = concat_str(owned("STOFFEL_BACKEND: unknown backend '"), low.as_str());
                    let m = concat_str(m, "', expected 'honeybadger' or 'avss'");
                    Err(Error::Configuration(m))
                }
            },
        }
    }

    fn step_curve(&mut self, v: &Option<String>) -> (r: Result<(), Error>)
        ensures
            step_done(*old(self), *final(self), r, curve_step(*old(self), *v)),
    {
        match v {
            None => Ok(()),
            Some(s) => {
                let low = to_lowercase(s.as_str());
                let l = low.as_str();
                proof {
                    reveal_strlit("bls12-381");
                    reveal_strlit("bls12_381");
                    reveal_strlit("bn254");
                    reveal_strlit("curve25519");
                    reveal_strlit("ed25519");
                }
                let curve = if str_eq(l, "bls12-381") || str_eq(l, "bls12_381") {
                    Curve::Bls12_381
                } else if str_eq(l, "bn254") {
                    Curve::Bn254
                } else if str_eq(l, "curve25519") {
                    Curve::Curve25519
                } else if str_eq(l, "ed25519") {
                    Curve::Ed25519
                } else {
                    let m = concat_str(owned("STOFFEL_CURVE: unknown curve '"), l);
                    let m = concat_str(m, "', expected one of: bls12-381, bn254, curve25519, ed25519");
                    return Err(Error::Configuration(m));
                };
                self.mpc.backend = MpcBackendConfig::Avss { curve };
                Ok(())
            },
        }
    }

    fn step_bind(&mut self, v: &Option<(String, Option<SocketAddress>)>) -> (r: Result<(), Error>)
        ensures
            step_done(*old(self), *final(self), r, bind_step(*old(self), *v)),
    {
        match v {
            None => Ok(()),
            Some((s, parsed)) => match parsed {
                Some(a) => {
                    self.network.bind_address = *a;
                    Ok(())
                },
                None => {
                    let m = concat_str(owned("STOFFEL_BIND_ADDRESS: invalid address '"), s.as_str());
                    let m = concat_str(m, "': invalid socket address syntax");
                    Err(Error::Configuration(m))
                },
            },
        }
    }

    fn step_startup(&mut self, v: &Option<String>) -> (r: Result<(), Error>)
        ensures
            step_done(*old(self), *final(self), r, startup_step(*old(self), *v)),
    {
        match v {
            None => Ok(()),
            Some(s) => {
                let low = to_lowercase(s.as_str());
                let l = low.as_str();
                proof {
                    reveal_strlit("true");
                    reveal_strlit("1");
                    reveal_strlit("yes");
                    reveal_strlit("false");
                    reveal_strlit("0");
                    reveal_strlit("no");
                }
                if str_eq(l, "true") || str_eq(l, "1") || str_eq(l, "yes") {
                    self.preprocessing.generate_on_startup = true;
                    Ok(())
                } else if str_eq(l, "false") || str_eq(l, "0") || str_eq(l, "no") {
                    self.preprocessing.generate_on_startup = false;
                    Ok(())
                } else {
                    let m = concat_str(owned("STOFFEL_GENERATE_ON_STARTUP: expected boolean, got '"), l);
                    let m = concat_str(m, "'");
                    Err(Error::Configuration(m))
                }
            },
        }
    }
}


impl StoffelConfig {
    /// Applies the environment overrides in their fixed order (see
    /// [`env_applied`]). On the first value that cannot be read it returns a
    /// configuration error, keeping the overrides applied before it.
    pub fn apply_env_overrides(&mut self, env: &EnvOverrides) -> (r: Result<(), Error>)
        ensures
            *final(self) == env_applied(*old(self), *env).0,
            rview(r) == env_applied(*old(self), *env).1,
    {
        let r = self.step_parties(&env.parties);
        if r.is_err() {
            return r;
        }
        let r = self.step_threshold(&env.threshold);
        if r.is_err() {
            return r;
        }
        let r = self.step_instance_id(&env.instance_id);
        if r.is_err() {
            return r;
        }
        let r = self.step_backend(&env.backend);
        if r.is_err() {
            return r;
        }
        let r = self.step_curve(&env.curve);
        if r.is_err() {
            return r;
        }
        let r = self.step_party_id(&env.party_id);
        if r.is_err() {
            return r;
        }
        let r = self.step_bind(&env.bind_address);
        if r.is_err() {
            return r;
        }
        let r = self.step_mpc_port(&env.mpc_port);
        if r.is_err() {
            return r;
        }
        let r = self.step_expected_parties(&env.expected_parties);
        if r.is_err() {
            return r;
        }
        let r = self.step_consensus_timeout_ms(&env.consensus_timeout_ms);
        if r.is_err() {
            return r;
        }
        let r = self.step_triples(&env.triples);
        if r.is_err() {
            return r;
        }
        let r = self.step_random_shares(&env.random_shares);
        if r.is_err() {
            return r;
        }
        let r = self.step_min_triples(&env.min_triples);
        if r.is_err() {
            return r;
        }
        let r = self.step_startup(&env.generate_on_startup);
        if r.is_err() {
            return r;
        }
        Ok(())
    }
}

} // verus!
