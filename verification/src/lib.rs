//! Stoffel SDK core: configuration, validation, coordination state machines,
//! wire framing and builders for multi-party computation networks.

pub mod text;
pub mod advanced;
pub mod types;
pub mod backend;
pub mod client;
pub mod client_handler;
pub mod compiler;
pub mod computation_handle;
pub mod error;
pub mod config;
pub mod coordinator;
pub mod consensus;
pub mod mpcaas;
pub mod mpc_network;
pub mod network;
pub mod network_config;
pub mod observability;
pub mod peer_manager;
pub mod program;
pub mod runtime;
pub mod server;
pub mod session;

use vstd::prelude::*;
use crate::backend::MpcBackend;
use crate::compiler::Compiler;
use crate::config::validation::{mpc_params_valid, threshold_in_range, validate_mpc_result};
use crate::config::{generate_instance_id, MpcBackendConfig, MpcConfig, StoffelConfig};
use crate::error::{Error, ErrorView, rview};
use crate::network::{deployed_settings, local_builder, StoffelNetwork};
use crate::program::Program;
use crate::runtime::StoffelRuntime;
use crate::text::{bytes_to_vec, owned};
use crate::types::Value;

verus! {

/// The protocol setting of a configuration for a backend choice; no choice
/// means HoneyBadger.
pub open spec fn backend_setting(b: Option<MpcBackend>) -> MpcBackendConfig {
    match b {
        Some(MpcBackend::Avss { curve }) => MpcBackendConfig::Avss { curve },
        _ => MpcBackendConfig::HoneyBadger,
    }
}

fn to_backend_setting(b: Option<MpcBackend>) -> (c: MpcBackendConfig)
    ensures
        c == backend_setting(b),
{
    match b {
        Some(MpcBackend::Avss { curve }) => MpcBackendConfig::Avss { curve },
        _ => MpcBackendConfig::HoneyBadger,
    }
}

/// The backend choice for a configuration's protocol setting.
pub open spec fn backend_choice(c: MpcBackendConfig) -> MpcBackend {
    match c {
        MpcBackendConfig::HoneyBadger => MpcBackend::HoneyBadger,
        MpcBackendConfig::Avss { curve } => MpcBackend::Avss { curve },
    }
}

/// Entry point: a program with the MPC parameters and named inputs to run it
/// with, built into a [`StoffelRuntime`].
pub struct Stoffel {
    bytecode: Vec<u8>,
    n_parties: Option<usize>,
    threshold: Option<usize>,
    mpc_backend: Option<MpcBackend>,
    inputs: Vec<(String, Value)>,
}

/// The named inputs as text and value.
pub open spec fn named_inputs(v: Seq<(String, Value)>) -> Seq<(Seq<char>, Value)> {
    v.map_values(|p: (String, Value)| (p.0@, p.1))
}

impl Stoffel {
    /// The bytecode of the program.
    pub closed spec fn code(&self) -> Seq<u8> {
        self.bytecode@
    }

    /// The number of parties, when set.
    pub closed spec fn parties_spec(&self) -> Option<usize> {
        self.n_parties
    }

    /// The threshold, when set.
    pub closed spec fn threshold_spec(&self) -> Option<usize> {
        self.threshold
    }

    /// The backend, when chosen.
    pub closed spec fn backend_spec(&self) -> Option<MpcBackend> {
        self.mpc_backend
    }

    /// The named inputs.
    pub closed spec fn inputs_spec(&self) -> Seq<(Seq<char>, Value)> {
        named_inputs(self.inputs@)
    }

    /// Whether nothing but the bytecode has been set.
    pub open spec fn is_fresh(&self) -> bool {
        &&& self.parties_spec() is None
        &&& self.threshold_spec() is None
        &&& self.backend_spec() is None
        &&& self.inputs_spec().len() == 0
    }

    /// Compiles source text with a default [`Compiler`], and starts from the
    /// bytecode it gives (see [`Stoffel::from_compiled`]).
    pub fn compile(source: &str) -> (r: Result<Self, Error>)
        ensures
            match r {
                Ok(s) => s.is_fresh(),
                Err(e) => e matches Error::Compilation(_),
            },
    {
        let compiler = Compiler::new();
        Self::from_compiled(compiler.compile_source(source))
    }

    /// Takes what a compilation gave: bytecode becomes a fresh builder of
    /// that bytecode; an error is handed back as it is.
    pub fn from_compiled(compiled: Result<Vec<u8>, Error>) -> (r: Result<Self, Error>)
        ensures
            match compiled {
                Ok(b) => r matches Ok(s) && s.code() == b@ && s.is_fresh(),
                Err(e) => r == Err::<Self, Error>(e),
            },
    {
        match compiled {
            Ok(bytecode) => Ok(Self::from_bytecode(bytecode)),
            Err(e) => Err(e),
        }
    }

    /// Starts from bytecode compiled earlier.
    pub fn load(bytecode: &[u8]) -> (s: Self)
        ensures
            s.code() == bytecode@,
            s.is_fresh(),
    {
        Self::from_bytecode(bytes_to_vec(bytecode))
    }

    fn from_bytecode(bytecode: Vec<u8>) -> (s: Self)
        ensures
            s.code() == bytecode@,
            s.is_fresh(),
    {
        let s = Stoffel {
            bytecode,
            n_parties: None,
            threshold: None,
            mpc_backend: None,
            inputs: Vec::new(),
        };
        assert(s.inputs_spec() =~= Seq::empty());
        s
    }

    /// Sets the number of parties.
    pub fn parties(self, n: usize) -> (s: Self)
        ensures
            s.parties_spec() == Some(n),
            s.code() == self.code(),
            s.threshold_spec() == self.threshold_spec(),
            s.backend_spec() == self.backend_spec(),
            s.inputs_spec() == self.inputs_spec(),
    {
        Stoffel { n_parties: Some(n), ..self }
    }

    /// Sets the threshold.
    pub fn threshold(self, t: usize) -> (s: Self)
        ensures
            s.threshold_spec() == Some(t),
            s.code() == self.code(),
            s.parties_spec() == self.parties_spec(),
            s.backend_spec() == self.backend_spec(),
            s.inputs_spec() == self.inputs_spec(),
    {
        Stoffel { threshold: Some(t), ..self }
    }

    /// Replaces the named inputs with these, in order.
    pub fn with_inputs(self, inputs: &[(&str, i64)]) -> (s: Self)
        ensures
            s.inputs_spec().len() == inputs@.len(),
            forall|i: int| 0 <= i < inputs@.len() ==> #[trigger] s.inputs_spec()[i] == (
                inputs@[i].0@,
                Value::Int64(inputs@[i].1),
            ),
            s.code() == self.code(),
            s.parties_spec() == self.parties_spec(),
            s.threshold_spec() == self.threshold_spec(),
            s.backend_spec() == self.backend_spec(),
    {
        let mut v: Vec<(String, Value)> = Vec::new();
        let mut i: usize = 0;
        while i < inputs.len()
            invariant
                i <= inputs@.len(),
                v@.len() == i,
                forall|j: int| 0 <= j < i ==> #[trigger] v@[j].0@ == inputs@[j].0@ && v@[j].1
                    == Value::Int64(inputs@[j].1),
            decreases inputs@.len() - i,
        {
            let name = owned(inputs[i].0);
            let ghost before = v@;
            v.push((name, Value::Int64(inputs[i].1)));
            assert(v@[i as int].0@ == inputs@[i as int].0@);
            assert forall|j: int| 0 <= j < i + 1 implies #[trigger] v@[j].0@ == inputs@[j].0@ && v@[j].1
                == Value::Int64(inputs@[j].1) by {
                if j < i {
                    assert(v@[j] == before[j]);
                }
            }
            i = i + 1;
        }
        let s = Stoffel { inputs: v, ..self };
        assert forall|i: int| 0 <= i < inputs@.len() implies #[trigger] s.inputs_spec()[i] == (
            inputs@[i].0@,
            Value::Int64(inputs@[i].1),
        ) by {
            assert(v@[i].0@ == inputs@[i].0@);
        }
        s
    }

    /// Chooses the backend protocol.
    pub fn backend(self, backend: MpcBackend) -> (s: Self)
        ensures
            s.backend_spec() == Some(backend),
            s.code() == self.code(),
            s.parties_spec() == self.parties_spec(),
            s.threshold_spec() == self.threshold_spec(),
            s.inputs_spec() == self.inputs_spec(),
    {
        Stoffel { mpc_backend: Some(backend), ..self }
    }

    /// Takes the MPC settings of a loaded configuration file for those not
    /// set yet: parties, threshold and backend; settings already made stay.
    pub fn config_file(self, config: &StoffelConfig) -> (s: Self)
        ensures
            s.parties_spec() == Some(match self.parties_spec() {
                Some(n) => n,
                None => config.mpc.parties,
            }),
            s.threshold_spec() == Some(match self.threshold_spec() {
                Some(t) => t,
                None => config.mpc.threshold,
            }),
            s.backend_spec() == Some(match self.backend_spec() {
                Some(b) => b,
                None => backend_choice(config.mpc.backend),
            }),
            s.code() == self.code(),
            s.inputs_spec() == self.inputs_spec(),
    {
        let n = match self.n_parties {
            Some(n) => n,
            None => config.mpc.parties,
        };
        let t = match self.threshold {
            Some(t) => t,
            None => config.mpc.threshold,
        };
        let b = match self.mpc_backend {
            Some(b) => b,
            None => match config.mpc.backend {
                MpcBackendConfig::HoneyBadger => MpcBackend::HoneyBadger,
                MpcBackendConfig::Avss { curve } => MpcBackend::Avss { curve },
            },
        };
        Stoffel { n_parties: Some(n), threshold: Some(t), mpc_backend: Some(b), ..self }
    }

    /// The threshold a build uses: the one set, or 1.
    pub open spec fn build_threshold(&self) -> usize {
        match self.threshold_spec() {
            Some(t) => t,
            None => 1,
        }
    }

    /// The number of parties of a local run: the one set, or 5.
    pub open spec fn local_parties(&self) -> usize {
        match self.parties_spec() {
            Some(n) => n,
            None => 5,
        }
    }

    /// The threshold of a local run: the one set, or 1.
    pub open spec fn local_threshold(&self) -> usize {
        match self.threshold_spec() {
            Some(t) => t,
            None => 1,
        }
    }

    /// The backend of a local run: the one chosen, or HoneyBadger.
    pub open spec fn local_backend(&self) -> MpcBackend {
        match self.backend_spec() {
            Some(b) => b,
            None => MpcBackend::HoneyBadger,
        }
    }

    /// The local network on which the program runs with its named inputs:
    /// the parties set or 5, the threshold set or 1, the backend chosen or
    /// HoneyBadger, built by [`NetworkBuilder::build`] with its other
    /// defaults. Fails as [`validate_mpc`](crate::config::validation::validate_mpc)
    /// does on those parameters.
    pub fn local_network(self) -> (r: Result<StoffelNetwork, Error>)
        requires
            threshold_in_range(self.local_threshold()),
        ensures
            r is Ok <==> mpc_params_valid(self.local_parties(), self.local_threshold()),
            r is Err ==> rview(r) == Err::<StoffelNetwork, ErrorView>(
                validate_mpc_result(self.local_parties(), self.local_threshold())->Err_0,
            ),
            r matches Ok(net) ==> {
                &&& net.bytecode_spec() == self.code()
                &&& net.inputs_spec() == self.inputs_spec()
                &&& net.client_inputs_spec().len() == 0
                &&& deployed_settings(
                    local_builder(self.local_parties(), self.local_threshold(), self.local_backend()),
                    net.config_spec(),
                )
            },
    {
        let n = match self.n_parties {
            Some(n) => n,
            None => 5,
        };
        let t = match self.threshold {
            Some(t) => t,
            None => 1,
        };
        let b = match self.mpc_backend {
            Some(b) => b,
            None => MpcBackend::HoneyBadger,
        };
        let builder = StoffelNetwork::builder().program(self.bytecode).parties(n).threshold(t).backend(b);
        match builder.build() {
            Ok(net) => Ok(net.with_inputs_from(self.inputs)),
            Err(e) => Err(e),
        }
    }

    /// Builds the runtime. With a number of parties, the MPC parameters are
    /// those parties, the threshold set or 1, and the backend chosen or
    /// HoneyBadger, and they must pass [`MpcConfig::validate`]; without one
    /// the runtime has no MPC parameters.
    pub fn build(self) -> (r: Result<StoffelRuntime, Error>)
        requires
            self.parties_spec() is Some ==> threshold_in_range(self.build_threshold()),
        ensures
            stoffel_build_result(self, r),
    {
        let mpc_config = match self.n_parties {
            Some(n) => {
                let t = match self.threshold {
                    Some(t) => t,
                    None => 1,
                };
                let mpc = MpcConfig {
                    parties: n,
                    threshold: t,
                    instance_id: generate_instance_id(),
                    backend: to_backend_setting(self.mpc_backend),
                };
                match mpc.validate() {
                    Ok(()) => {},
                    Err(e) => {
                        return Err(e);
                    },
                }
                Some(mpc)
            },
            None => None,
        };
        Ok(StoffelRuntime::new(Program::new(self.bytecode), mpc_config, self.inputs))
    }
}

/// What [`Stoffel::build`] gives for the builder `s`: without a number of
/// parties, a runtime with no MPC parameters; with `n` parties, a runtime
/// exactly when `n` and the build threshold pass the rules (else their
/// error), whose MPC parameters are those parties, that threshold and the
/// chosen backend. The runtime holds the bytecode and the named inputs.
pub open spec fn stoffel_build_result(s: Stoffel, r: Result<StoffelRuntime, Error>) -> bool {
    &&& match s.parties_spec() {
        None => r is Ok,
        Some(n) => (r is Ok <==> mpc_params_valid(n, s.build_threshold())) && (r is Err ==> rview(r)
            == Err::<StoffelRuntime, ErrorView>(validate_mpc_result(n, s.build_threshold())->Err_0)),
    }
    &&& r matches Ok(rt) ==> {
        &&& rt.program_spec().code() == s.code()
        &&& named_inputs(rt.inputs_spec()) == s.inputs_spec()
        &&& match s.parties_spec() {
            None => rt.mpc_config_spec() is None,
            Some(n) => rt.mpc_config_spec() matches Some(m) && m.parties == n && m.threshold
                == s.build_threshold() && m.backend == backend_setting(s.backend_spec()),
        }
    }
}

/// Loading bytecode `b`, then setting a threshold `t` or not and a number of
/// parties `n` or not, then building: the runtime has MPC parameters exactly
/// when the parties were set (a threshold alone is neither used nor
/// checked, and the build then always succeeds); with parties `n` the build
/// succeeds exactly when `n` and the threshold (the one set, or 1) pass the
/// rules, and the parameters are `n` parties with that threshold. The
/// runtime always holds `b`.
pub proof fn lemma_build_after_settings(
    s: Stoffel,
    b: Seq<u8>,
    t: Option<usize>,
    n: Option<usize>,
    r: Result<StoffelRuntime, Error>,
)
    requires
        s.code() == b,
        s.threshold_spec() == t,
        s.parties_spec() == n,
        s.backend_spec() is None,
        s.inputs_spec().len() == 0,
        stoffel_build_result(s, r),
    ensures
        n is None ==> (r matches Ok(rt) && rt.mpc_config_spec() is None),
        n matches Some(k) ==> (r is Ok <==> mpc_params_valid(k, match t {
            Some(x) => x,
            None => 1usize,
        })),
        n matches Some(k) ==> (r matches Ok(rt) ==> (rt.mpc_config_spec() matches Some(m) && m.parties
            == k && m.threshold == (match t {
            Some(x) => x,
            None => 1usize,
        }) && m.backend == MpcBackendConfig::HoneyBadger)),
        r matches Ok(rt) ==> rt.program_spec().code() == b,
{
}

} // verus!
