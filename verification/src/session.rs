//! One party of a computation as the runtime hands it out: its settings,
//! the builder that checks them, and the decoding of its result.

use vstd::prelude::*;
use crate::error::{Error, ErrorView, rview};
use crate::text::{concat_str, decimal, owned, usize_to_decimal};

verus! {

/// The MPC protocol a node runs.
#[derive(Clone, Copy, Debug, PartialEq, Eq, Structural)]
pub enum ProtocolType {
    /// HoneyBadger MPC.
    HoneyBadger,
}

/// Parameters of the computation a node takes part in.
#[derive(Clone, Copy, Debug, PartialEq, Eq, Structural)]
pub struct MPCConfig {
    pub n_parties: usize,
    pub threshold: usize,
    pub instance_id: u64,
    pub protocol_type: ProtocolType,
}

/// One party of a computation, with its inputs and preprocessing amounts.
pub struct MPCNode {
    party_id: usize,
    inputs: Vec<i64>,
    n_triples: usize,
    n_random_shares: usize,
    config: MPCConfig,
}

/// The message for parameters that tolerate no faults as asked.
pub open spec fn bad_node_params_text(n: usize, t: usize) -> Seq<char> {
    "Invalid parameters: n="@ + decimal(n as nat) + " must be >= 3t+1="@ + decimal((3 * t + 1) as nat)
        + " for t="@ + decimal(t as nat)
}

/// The message for a party id out of range.
pub open spec fn bad_node_party_text(id: usize, n: usize) -> Seq<char> {
    "party_id="@ + decimal(id as nat) + " must be < n_parties="@ + decimal(n as nat)
}

/// What checking a node's settings gives: `n >= 3t + 1`, then a party id
/// below `n`.
pub open spec fn node_check(party_id: usize, config: MPCConfig) -> Result<(), ErrorView> {
    if config.n_parties < 3 * config.threshold + 1 {
        Err(ErrorView::InvalidInput(bad_node_params_text(config.n_parties, config.threshold)))
    } else if party_id >= config.n_parties {
        Err(ErrorView::InvalidInput(bad_node_party_text(party_id, config.n_parties)))
    } else {
        Ok(())
    }
}

impl MPCNode {
    /// The party id.
    pub closed spec fn party_id_spec(&self) -> usize {
        self.party_id
    }

    /// The inputs.
    pub closed spec fn inputs_spec(&self) -> Seq<i64> {
        self.inputs@
    }

    /// Triples and random shares to generate.
    pub closed spec fn preprocessing_spec(&self) -> (usize, usize) {
        (self.n_triples, self.n_random_shares)
    }

    /// The parameters.
    pub closed spec fn config_spec(&self) -> MPCConfig {
        self.config
    }

    /// A node of these settings, once they are checked (see [`node_check`]).
    pub fn build(
        party_id: usize,
        config: MPCConfig,
        inputs: Vec<i64>,
        n_triples: usize,
        n_random_shares: usize,
    ) -> (r: Result<MPCNode, Error>)
        requires
            3 * config.threshold + 1 <= usize::MAX,
        ensures
            (r is Ok) == (node_check(party_id, config) is Ok),
            r is Err ==> rview(r) == Err::<MPCNode, ErrorView>(node_check(party_id, config)->Err_0),
            r matches Ok(n) ==> n.party_id_spec() == party_id && n.config_spec() == config
                && n.inputs_spec() == inputs@ && n.preprocessing_spec() == (n_triples, n_random_shares),
    {
        let n = config.n_parties;
        let t = config.threshold;
        if n < 3 * t + 1 {
            let m = concat_str(owned("Invalid parameters: n="), usize_to_decimal(n).as_str());
            let m = concat_str(concat_str(m, " must be >= 3t+1="), usize_to_decimal(3 * t + 1).as_str());
            let m = concat_str(concat_str(m, " for t="), usize_to_decimal(t).as_str());
            assert(m@ =~= bad_node_params_text(n, t));
            return Err(Error::InvalidInput(m));
        }
        if party_id >= n {
            let m = concat_str(owned("party_id="), usize_to_decimal(party_id).as_str());
            let m = concat_str(concat_str(m, " must be < n_parties="), usize_to_decimal(n).as_str());
            assert(m@ =~= bad_node_party_text(party_id, n));
            return Err(Error::InvalidInput(m));
        }
        Ok(MPCNode { party_id, inputs, n_triples, n_random_shares, config })
    }

    /// The party id.
    pub fn party_id(&self) -> (p: usize)
        ensures
            p == self.party_id_spec(),
    {
        self.party_id
    }

    /// The inputs.
    pub fn inputs(&self) -> (i: &[i64])
        ensures
            i@ == self.inputs_spec(),
    {
        self.inputs.as_slice()
    }

    /// The instance id of the computation.
    pub fn instance_id(&self) -> (id: u64)
        ensures
            id == self.config_spec().instance_id,
    {
        self.config.instance_id
    }

    /// The parameters.
    pub fn config(&self) -> (c: &MPCConfig)
        ensures
            *c == self.config_spec(),
    {
        &self.config
    }

    /// Running a program needs the local MPC engine, which this build does
    /// not hold: an error.
    pub fn run(&mut self, bytecode: &[u8]) -> (r: Result<Vec<i64>, Error>)
        ensures
            rview(r) == Err::<Vec<i64>, ErrorView>(ErrorView::Runtime("run() requires the 'mpc-local' feature to be enabled"@)),
            *final(self) == *old(self),
    {
        Err(Error::Runtime(owned("run() requires the 'mpc-local' feature to be enabled")))
    }

    /// Multiplying shares needs the local MPC engine: an error.
    pub fn mul(&mut self, a: i64, b: i64) -> (r: Result<i64, Error>)
        ensures
            rview(r) == Err::<i64, ErrorView>(ErrorView::Runtime("mul() requires the 'mpc-local' feature to be enabled"@)),
            *final(self) == *old(self),
    {
        Err(Error::Runtime(owned("mul() requires the 'mpc-local' feature to be enabled")))
    }

    /// Opening a share needs the local MPC engine: an error.
    pub fn output(&mut self, share: i64) -> (r: Result<i64, Error>)
        ensures
            rview(r) == Err::<i64, ErrorView>(ErrorView::Runtime("output() requires the 'mpc-local' feature to be enabled"@)),
            *final(self) == *old(self),
    {
        Err(Error::Runtime(owned("output() requires the 'mpc-local' feature to be enabled")))
    }
}

/// Builder of an [`MPCNode`] with the runtime's parameters.
pub struct MPCNodeBuilder {
    pub party_id: usize,
    pub inputs: Vec<i64>,
    pub n_triples: Option<usize>,
    pub n_random_shares: Option<usize>,
    pub n_parties: usize,
    pub threshold: usize,
    pub instance_id: u64,
    pub protocol_type: ProtocolType,
}

/// The triples generated when none were asked for: `2t + 1`.
pub open spec fn default_triples_for(t: usize) -> nat {
    2 * t as nat + 1
}

/// The random shares generated when none were asked for: `2 + 2 * triples`.
pub open spec fn default_random_for(triples: nat) -> nat {
    2 + 2 * triples
}

impl MPCNodeBuilder {
    /// A builder for `party_id` in a computation of `n_parties` parties.
    pub fn new(party_id: usize, n_parties: usize, threshold: usize, instance_id: u64, protocol_type: ProtocolType) -> (b: Self)
        ensures
            b.party_id == party_id,
            b.inputs@.len() == 0,
            b.n_triples is None,
            b.n_random_shares is None,
            b.n_parties == n_parties,
            b.threshold == threshold,
            b.instance_id == instance_id,
            b.protocol_type == protocol_type,
    {
        MPCNodeBuilder {
            party_id,
            inputs: Vec::new(),
            n_triples: None,
            n_random_shares: None,
            n_parties,
            threshold,
            instance_id,
            protocol_type,
        }
    }

    /// Sets the inputs.
    pub fn with_inputs(self, inputs: Vec<i64>) -> (b: Self)
        ensures
            b.inputs == inputs,
            b.party_id == self.party_id,
            b.n_triples == self.n_triples,
            b.n_random_shares == self.n_random_shares,
            b.n_parties == self.n_parties,
            b.threshold == self.threshold,
            b.instance_id == self.instance_id,
            b.protocol_type == self.protocol_type,
    {
        MPCNodeBuilder { inputs, ..self }
    }

    /// Sets the amounts of preprocessing material.
    pub fn with_preprocessing(self, n_triples: usize, n_random_shares: usize) -> (b: Self)
        ensures
            b.n_triples == Some(n_triples),
            b.n_random_shares == Some(n_random_shares),
            b.inputs == self.inputs,
            b.party_id == self.party_id,
            b.n_parties == self.n_parties,
            b.threshold == self.threshold,
            b.instance_id == self.instance_id,
            b.protocol_type == self.protocol_type,
    {
        MPCNodeBuilder { n_triples: Some(n_triples), n_random_shares: Some(n_random_shares), ..self }
    }

    /// Builds the node: amounts not set default to `2t + 1` triples and
    /// `2 + 2 * triples` random shares; the settings are checked as
    /// [`MPCNode::build`] does.
    pub fn build(self) -> (r: Result<MPCNode, Error>)
        requires
            3 * self.threshold + 1 <= usize::MAX,
            self.n_triples is None ==> 2 + 2 * default_triples_for(self.threshold) <= usize::MAX,
            self.n_triples is Some && self.n_random_shares is None ==> 2 + 2 * self.n_triples->Some_0 <= usize::MAX,
        ensures
            ({
                let config = MPCConfig {
                    n_parties: self.n_parties,
                    threshold: self.threshold,
                    instance_id: self.instance_id,
                    protocol_type: self.protocol_type,
                };
                let triples: nat = match self.n_triples {
                    Some(k) => k as nat,
                    None => default_triples_for(self.threshold),
                };
                let random: nat = match self.n_random_shares {
                    Some(k) => k as nat,
                    None => default_random_for(triples),
                };
                &&& (r is Ok) == (node_check(self.party_id, config) is Ok)
                &&& r is Err ==> rview(r) == Err::<MPCNode, ErrorView>(node_check(self.party_id, config)->Err_0)
                &&& r matches Ok(n) ==> n.party_id_spec() == self.party_id && n.config_spec() == config
                    && n.inputs_spec() == self.inputs@ && n.preprocessing_spec().0 == triples
                    && n.preprocessing_spec().1 == random
            }),
    {
        let n_triples = match self.n_triples {
            Some(k) => k,
            None => 2 * self.threshold + 1,
        };
        let n_random_shares = match self.n_random_shares {
            Some(k) => k,
            None => 2 + 2 * n_triples,
        };
        let config = MPCConfig {
            n_parties: self.n_parties,
            threshold: self.threshold,
            instance_id: self.instance_id,
            protocol_type: self.protocol_type,
        };
        MPCNode::build(self.party_id, config, self.inputs, n_triples, n_random_shares)
    }
}

/// The number a little-endian byte string stands for.
pub open spec fn le_value(b: Seq<u8>) -> nat
    decreases b.len(),
{
    if b.len() == 0 {
        0
    } else {
        b[0] as nat + 256 * le_value(b.drop_first())
    }
}

/// `256^n`.
pub open spec fn pow256(n: nat) -> nat
    decreases n,
{
    if n == 0 {
        1
    } else {
        256 * pow256((n - 1) as nat)
    }
}

proof fn lemma_le_value_bound(b: Seq<u8>)
    ensures
        le_value(b) < pow256(b.len()),
    decreases b.len(),
{
    if b.len() > 0 {
        lemma_le_value_bound(b.drop_first());
        assert(le_value(b) <= 255 + 256 * (pow256((b.len() - 1) as nat) - 1)) by (nonlinear_arith)
            requires
                le_value(b) == b[0] as nat + 256 * le_value(b.drop_first()),
                le_value(b.drop_first()) < pow256((b.len() - 1) as nat),
                b[0] <= 255,
        ;
    }
}

/// The result value in the first (up to) eight little-endian bytes of an
/// opened field element, read as a two's-complement `i64`.
pub fn output_value(bytes: &[u8]) -> (v: i64)
    ensures
        v == (le_value(bytes@.take(if bytes@.len() < 8 { bytes@.len() as int } else { 8 })) as u64) as i64,
{
    let len: usize = if bytes.len() < 8 { bytes.len() } else { 8 };
    let ghost s = bytes@.take(len as int);
    let mut acc: u64 = 0;
    let mut k: usize = len;
    proof {
        assert(s.subrange(len as int, len as int) =~= Seq::<u8>::empty());
    }
    while k > 0
        invariant
            k <= len <= 8,
            len <= bytes@.len(),
            s == bytes@.take(len as int),
            acc as nat == le_value(s.subrange(k as int, len as int)),
        decreases k,
    {
        let ghost tail = s.subrange(k as int, len as int);
        proof {
            lemma_le_value_bound(tail);
            reveal_with_fuel(pow256, 9);
            assert(pow256(tail.len()) <= pow256(7)) by {
                lemma_pow256_mono(tail.len(), 7);
            }
            assert(s.subrange(k - 1, len as int).drop_first() =~= tail);
        }
        acc = acc * 256 + bytes[k - 1] as u64;
        k = k - 1;
    }
    proof {
        assert(s.subrange(0, len as int) =~= s);
    }
    acc as i64
}

proof fn lemma_pow256_mono(a: nat, b: nat)
    requires
        a <= b,
    ensures
        pow256(a) <= pow256(b),
    decreases b,
{
    if a < b {
        lemma_pow256_mono(a, (b - 1) as nat);
    }
}

/// The message when the input protocol yields fewer than two inputs.
pub open spec fn too_few_inputs_text(n: usize) -> Seq<char> {
    "Expected at least 2 inputs, got "@ + decimal(n as nat)
}

/// Checks that the input protocol gave the two inputs that the product
/// needs.
pub fn check_input_count(n: usize) -> (r: Result<(), Error>)
    ensures
        r is Ok <==> n >= 2,
        n < 2 ==> rview(r) == Err::<(), ErrorView>(ErrorView::Runtime(too_few_inputs_text(n))),
{
    if n < 2 {
        return Err(Error::Runtime(concat_str(owned("Expected at least 2 inputs, got "), usize_to_decimal(n).as_str())));
    }
    Ok(())
}

} // verus!
