//! A built program with its MPC parameters and named inputs, from which
//! clients and servers are configured.

use vstd::prelude::*;
use crate::client::ClientBuilder;
use crate::config::{MpcConfig, PreprocessingConfig};
use crate::program::Program;
use crate::server::ServerBuilder;
use crate::types::{ClientId, Duration, PartyId, Value};

verus! {

/// A program ready to run, with its MPC parameters when they were given.
pub struct StoffelRuntime {
    pub(crate) program: Program,
    pub(crate) mpc_config: Option<MpcConfig>,
    pub(crate) inputs: Vec<(String, Value)>,
}

impl StoffelRuntime {
    /// The program.
    pub closed spec fn program_spec(&self) -> Program {
        self.program
    }

    /// The MPC parameters, when given.
    pub closed spec fn mpc_config_spec(&self) -> Option<MpcConfig> {
        self.mpc_config
    }

    /// The named inputs, in order.
    pub closed spec fn inputs_spec(&self) -> Seq<(String, Value)> {
        self.inputs@
    }

    /// A runtime of these parts.
    pub fn new(program: Program, mpc_config: Option<MpcConfig>, inputs: Vec<(String, Value)>) -> (r: Self)
        ensures
            r.program_spec() == program,
            r.mpc_config_spec() == mpc_config,
            r.inputs_spec() == inputs@,
    {
        StoffelRuntime { program, mpc_config, inputs }
    }

    /// The program.
    pub fn program(&self) -> (p: &Program)
        ensures
            *p == self.program_spec(),
    {
        &self.program
    }

    /// The MPC parameters, when given.
    pub fn mpc_config(&self) -> (c: Option<&MpcConfig>)
        ensures
            c == (match self.mpc_config_spec() {
                Some(m) => Some(&m),
                None => None::<&MpcConfig>,
            }),
    {
        match &self.mpc_config {
            Some(m) => Some(m),
            None => None,
        }
    }

    /// The named inputs.
    pub fn inputs(&self) -> (i: &[(String, Value)])
        ensures
            i@ == self.inputs_spec(),
    {
        self.inputs.as_slice()
    }

    /// A client builder; with MPC parameters, its client id is the
    /// computation's instance id.
    pub fn client(&self) -> (b: ClientBuilder)
        ensures
            b.servers@.len() == 0,
            b.client_id == (match self.mpc_config_spec() {
                Some(m) => Some(ClientId(m.instance_id)),
                None => None,
            }),
            b.timeout == Duration::from_secs_spec(30),
            b.retry.max_attempts == 3,
    {
        let builder = ClientBuilder::new();
        match &self.mpc_config {
            Some(mpc) => builder.client_id(ClientId(mpc.instance_id)),
            None => builder,
        }
    }

    /// A server builder for `party_id`; with MPC parameters, it generates
    /// 1000 triples and 500 random shares.
    pub fn server(&self, party_id: usize) -> (b: ServerBuilder)
        ensures
            b.party_id == PartyId(party_id),
            b.bind_addr is None,
            b.mpc_port is None,
            b.peers@.len() == 0,
            b.program is None,
            b.expected_clients is None,
            b.preprocessing == (PreprocessingConfig {
                triples: 1000, random_shares: 500, min_triples: 100, generate_on_startup: true,
            }),
            b.consensus_timeout == Duration::from_secs_spec(30),
    {
        let builder = ServerBuilder::new(party_id);
        match &self.mpc_config {
            Some(_) => builder.with_preprocessing(1000, 500),
            None => builder,
        }
    }
}

} // verus!
