//! A whole MPC network described in one place: the deployment settings it is
//! built from, the plan for running it on one machine, and the deployment
//! files it is laid out in.

use vstd::prelude::*;
use crate::backend::MpcBackend;
use crate::config::validation::{mpc_params_valid, threshold_in_range, validate_mpc, validate_mpc_result};
use crate::compiler::Compiler;
use crate::config::{MpcBackendConfig, PreprocessingConfig};
use crate::error::{Error, ErrorView, rview};
use crate::text::{concat_str, decimal, owned, usize_to_decimal};
use crate::types::{SocketAddress, Value};

verus! {

/// How the parties' connections are secured.
#[derive(Clone, Copy, Debug, PartialEq, Eq, Structural)]
pub enum TlsConfig {
    /// Certificates generated on the fly.
    SelfSigned,
    /// No TLS.
    Disabled,
}

/// The network-wide parameters.
#[derive(Clone, Debug)]
pub struct NetworkParams {
    pub parties: usize,
    pub threshold: usize,
    pub backend: MpcBackendConfig,
    /// Path of the program, when it is read from a file.
    pub program: Option<String>,
}

/// Settings of the coordinator.
#[derive(Clone, Debug)]
pub struct CoordinatorConfig {
    pub bind_address: SocketAddress,
    pub expected_parties: Option<usize>,
    pub threshold: Option<usize>,
    pub n_outputs: usize,
    pub tls: TlsConfig,
}

/// Settings of one server.
#[derive(Clone, Debug)]
pub struct ServerDeployConfig {
    pub party_id: Option<usize>,
    pub bind_address: Option<SocketAddress>,
    /// The coordinator to reach.
    pub coordinator: SocketAddress,
    pub backend: MpcBackendConfig,
    pub preprocessing: PreprocessingConfig,
    pub tls: TlsConfig,
}

/// Settings of a client.
#[derive(Clone, Debug)]
pub struct ClientDeployConfig {
    pub coordinator: SocketAddress,
    pub program: Option<String>,
    pub tls: TlsConfig,
}

/// Deployment settings of a network: parameters, coordinator, one entry per
/// server, and optionally a client.
#[derive(Clone, Debug)]
pub struct NetworkDeployConfig {
    pub network: NetworkParams,
    pub coordinator: CoordinatorConfig,
    pub server: Vec<ServerDeployConfig>,
    pub client: Option<ClientDeployConfig>,
}

/// The default coordinator address: `127.0.0.1:0`, a port chosen by the
/// system.
pub open spec fn default_coordinator_bind() -> SocketAddress {
    SocketAddress::V4 { ip: 0x7f00_0001, port: 0 }
}

/// The protocol setting of a backend.
pub open spec fn backend_config_of(b: MpcBackend) -> MpcBackendConfig {
    match b {
        MpcBackend::HoneyBadger => MpcBackendConfig::HoneyBadger,
        MpcBackend::Avss { curve } => MpcBackendConfig::Avss { curve },
    }
}

fn backend_config(b: MpcBackend) -> (c: MpcBackendConfig)
    ensures
        c == backend_config_of(b),
{
    match b {
        MpcBackend::HoneyBadger => MpcBackendConfig::HoneyBadger,
        MpcBackend::Avss { curve } => MpcBackendConfig::Avss { curve },
    }
}

/// Builder of a [`StoffelNetwork`].
pub struct NetworkBuilder {
    /// The program's bytecode, when given or loaded.
    pub bytecode: Option<Vec<u8>>,
    /// The file to take the program from, when no bytecode is given.
    pub source_path: Option<String>,
    pub n_parties: usize,
    pub threshold: usize,
    pub backend: MpcBackend,
    /// Triples and random shares to generate.
    pub preprocessing: (usize, usize),
    pub tls_mode: TlsConfig,
    pub coordinator_bind: Option<SocketAddress>,
}

/// What kind of program file a path names.
#[derive(Clone, Copy, Debug, PartialEq, Eq, Structural)]
pub enum ProgramFileKind {
    /// Stoffel source (extension `stfl`): compiled.
    Source,
    /// Anything else: read as bytecode.
    Binary,
}

/// What was read from the program file a builder names: the text of a
/// source file, or the bytes of any other file (see [`program_file_kind`]).
pub enum ProgramFileContents {
    /// Stoffel source text, to be compiled.
    Source(String),
    /// Bytecode, taken as it is.
    Bytecode(Vec<u8>),
}

/// The message when a program file was named but not read.
pub open spec fn unread_file_text(path: Seq<char>) -> Seq<char> {
    "program file "@ + path + " has not been loaded"@
}

/// The file name in a path: what follows the last `/`.
pub open spec fn file_name(path: Seq<char>) -> Seq<char>
    decreases path.len(),
{
    if path.len() == 0 {
        path
    } else if path.last() == '/' {
        Seq::empty()
    } else {
        file_name(path.drop_last()).push(path.last())
    }
}

/// The extension of a file name: what follows its last `.`, when that dot
/// is not the first character; `None` otherwise.
pub open spec fn extension(name: Seq<char>) -> Option<Seq<char>>
    decreases name.len(),
{
    if name.len() <= 1 {
        None
    } else if name.last() == '.' {
        Some(Seq::empty())
    } else {
        match extension(name.drop_last()) {
            Some(e) => Some(e.push(name.last())),
            None => None,
        }
    }
}

/// The kind of program file at `path`.
pub open spec fn program_file_kind_of(path: Seq<char>) -> ProgramFileKind {
    if extension(file_name(path)) == Some("stfl"@) {
        ProgramFileKind::Source
    } else {
        ProgramFileKind::Binary
    }
}

/// The kind of program file at `path`: source when its extension is `stfl`.
pub fn program_file_kind(path: &str) -> (k: ProgramFileKind)
    ensures
        k == program_file_kind_of(path@),
{
    let n = path.unicode_len();
    let mut name_start: usize = 0;
    let mut i: usize = 0;
    while i < n
        invariant
            i <= n,
            n == path@.len(),
            name_start <= i,
            file_name(path@.take(i as int)) == path@.subrange(name_start as int, i as int),
        decreases n - i,
    {
        let c = path.get_char(i);
        proof {
            assert(path@.take(i + 1).drop_last() =~= path@.take(i as int));
            assert(path@.take(i + 1).last() == c);
        }
        if c == '/' {
            name_start = i + 1;
            proof {
                assert(path@.subrange(i + 1, i + 1) =~= Seq::<char>::empty());
            }
        } else {
            proof {
                assert(path@.subrange(name_start as int, i + 1) =~= path@.subrange(
                    name_start as int,
                    i as int,
                ).push(c));
            }
        }
        i = i + 1;
    }
    proof {
        assert(path@.take(n as int) =~= path@);
    }
    let ghost name = path@.subrange(name_start as int, n as int);
    let len = n - name_start;
    let mut dot: Option<usize> = None;
    let mut j: usize = 0;
    while j < len
        invariant
            j <= len,
            len == n - name_start,
            n == path@.len(),
            name == path@.subrange(name_start as int, n as int),
            match dot {
                Some(d) => 1 <= d < j && extension(name.take(j as int)) == Some(
                    name.subrange(d + 1, j as int),
                ),
                None => extension(name.take(j as int)) is None,
            },
        decreases len - j,
    {
        let c = path.get_char(name_start + j);
        proof {
            assert(name.take(j + 1).drop_last() =~= name.take(j as int));
            assert(name.take(j + 1).last() == c);
        }
        if c == '.' && j >= 1 {
            dot = Some(j);
            proof {
                assert(name.subrange(j + 1, j + 1) =~= Seq::<char>::empty());
            }
        } else {
            proof {
                match dot {
                    Some(d) => {
                        assert(name.subrange(d + 1, j + 1) =~= name.subrange(d + 1, j as int).push(c));
                    },
                    None => {},
                }
            }
        }
        j = j + 1;
    }
    proof {
        assert(name.take(len as int) =~= name);
    }
    proof {
        assert(file_name(path@) == name);
    }
    match dot {
        Some(d) => {
            let ext_len = len - d - 1;
            proof {
                let ext = name.subrange(d + 1, len as int);
                assert(extension(name) == Some(ext));
                assert(ext.len() == ext_len);
                assert forall|x: int| 0 <= x < ext.len() implies ext[x] == path@[name_start + d + 1 + x] by {}
            }
            if ext_len == 4 && path.get_char(name_start + d + 1) == 's' && path.get_char(
                name_start + d + 2,
            ) == 't' && path.get_char(name_start + d + 3) == 'f' && path.get_char(name_start + d + 4)
                == 'l' {
                proof {
                    reveal_strlit("stfl");
                    assert(name.subrange(d + 1, len as int) =~= "stfl"@);
                }
                ProgramFileKind::Source
            } else {
                proof {
                    reveal_strlit("stfl");
                    if name.subrange(d + 1, len as int) == "stfl"@ {
                        assert(name.subrange(d + 1, len as int)[0] == 's');
                        assert(name.subrange(d + 1, len as int)[1] == 't');
                        assert(name.subrange(d + 1, len as int)[2] == 'f');
                        assert(name.subrange(d + 1, len as int)[3] == 'l');
                    }
                }
                ProgramFileKind::Binary
            }
        },
        None => ProgramFileKind::Binary,
    }
}

impl NetworkBuilder {
    /// Five parties, threshold 1, HoneyBadger, 1000 triples and 500 random
    /// shares, self-signed TLS; no program, no coordinator address.
    pub fn new() -> (b: Self)
        ensures
            b.bytecode is None,
            b.source_path is None,
            b.n_parties == 5,
            b.threshold == 1,
            b.backend == MpcBackend::HoneyBadger,
            b.preprocessing == (1000usize, 500usize),
            b.tls_mode == TlsConfig::SelfSigned,
            b.coordinator_bind is None,
    {
        NetworkBuilder {
            bytecode: None,
            source_path: None,
            n_parties: 5,
            threshold: 1,
            backend: MpcBackend::HoneyBadger,
            preprocessing: (1000, 500),
            tls_mode: TlsConfig::SelfSigned,
            coordinator_bind: None,
        }
    }

    /// Sets the program's bytecode.
    pub fn program(self, bytecode: Vec<u8>) -> (b: Self)
        ensures
            b.bytecode == Some(bytecode),
            b.source_path == self.source_path,
            b.n_parties == self.n_parties,
            b.threshold == self.threshold,
            b.backend == self.backend,
            b.preprocessing == self.preprocessing,
            b.tls_mode == self.tls_mode,
            b.coordinator_bind == self.coordinator_bind,
    {
        NetworkBuilder { bytecode: Some(bytecode), ..self }
    }

    /// Names the file to take the program from (see [`program_file_kind`]).
    pub fn program_file(self, path: &str) -> (b: Self)
        ensures
            b.source_path matches Some(p) && p@ == path@,
            b.bytecode == self.bytecode,
            b.n_parties == self.n_parties,
            b.threshold == self.threshold,
            b.backend == self.backend,
    {
        NetworkBuilder { source_path: Some(owned(path)), ..self }
    }

    /// Sets the number of parties.
    pub fn parties(self, n: usize) -> (b: Self)
        ensures
            b.n_parties == n,
            b.bytecode == self.bytecode,
            b.source_path == self.source_path,
            b.threshold == self.threshold,
            b.backend == self.backend,
            b.preprocessing == self.preprocessing,
            b.tls_mode == self.tls_mode,
            b.coordinator_bind == self.coordinator_bind,
    {
        NetworkBuilder { n_parties: n, ..self }
    }

    /// Sets the threshold.
    pub fn threshold(self, t: usize) -> (b: Self)
        ensures
            b.threshold == t,
            b.bytecode == self.bytecode,
            b.source_path == self.source_path,
            b.n_parties == self.n_parties,
            b.backend == self.backend,
            b.preprocessing == self.preprocessing,
            b.tls_mode == self.tls_mode,
            b.coordinator_bind == self.coordinator_bind,
    {
        NetworkBuilder { threshold: t, ..self }
    }

    /// Chooses the backend.
    pub fn backend(self, backend: MpcBackend) -> (b: Self)
        ensures
            b.backend == backend,
            b.bytecode == self.bytecode,
            b.source_path == self.source_path,
            b.n_parties == self.n_parties,
            b.threshold == self.threshold,
            b.preprocessing == self.preprocessing,
            b.tls_mode == self.tls_mode,
            b.coordinator_bind == self.coordinator_bind,
    {
        NetworkBuilder { backend, ..self }
    }

    /// Sets the amounts of preprocessing material.
    pub fn with_preprocessing(self, triples: usize, random_shares: usize) -> (b: Self)
        ensures
            b.preprocessing == (triples, random_shares),
            b.bytecode == self.bytecode,
            b.source_path == self.source_path,
            b.n_parties == self.n_parties,
            b.threshold == self.threshold,
            b.backend == self.backend,
            b.tls_mode == self.tls_mode,
            b.coordinator_bind == self.coordinator_bind,
    {
        NetworkBuilder { preprocessing: (triples, random_shares), ..self }
    }

    /// Sets the TLS mode.
    pub fn tls(self, tls: TlsConfig) -> (b: Self)
        ensures
            b.tls_mode == tls,
            b.bytecode == self.bytecode,
            b.source_path == self.source_path,
            b.n_parties == self.n_parties,
            b.threshold == self.threshold,
            b.backend == self.backend,
            b.preprocessing == self.preprocessing,
            b.coordinator_bind == self.coordinator_bind,
    {
        NetworkBuilder { tls_mode: tls, ..self }
    }

    /// Sets the coordinator's address.
    pub fn coordinator_bind(self, addr: SocketAddress) -> (b: Self)
        ensures
            b.coordinator_bind == Some(addr),
            b.bytecode == self.bytecode,
            b.source_path == self.source_path,
            b.n_parties == self.n_parties,
            b.threshold == self.threshold,
            b.backend == self.backend,
            b.preprocessing == self.preprocessing,
            b.tls_mode == self.tls_mode,
    {
        NetworkBuilder { coordinator_bind: Some(addr), ..self }
    }

    /// Takes the program from the contents of the file the builder names,
    /// unless bytecode was given: source text is compiled with a default
    /// [`Compiler`], bytes are the bytecode. The other settings stay.
    pub fn load_program(self, contents: ProgramFileContents) -> (r: Result<Self, Error>)
        ensures
            self.bytecode is Some ==> r == Ok::<Self, Error>(self),
            self.bytecode is None ==> match contents {
                ProgramFileContents::Bytecode(b) => r matches Ok(n) && n.bytecode matches Some(c)
                    && c@ == b@,
                ProgramFileContents::Source(t) => match r {
                    Ok(n) => n.bytecode is Some,
                    Err(e) => e matches Error::Compilation(_),
                },
            },
            r matches Ok(n) ==> {
                &&& n.source_path == self.source_path
                &&& n.n_parties == self.n_parties
                &&& n.threshold == self.threshold
                &&& n.backend == self.backend
                &&& n.preprocessing == self.preprocessing
                &&& n.tls_mode == self.tls_mode
                &&& n.coordinator_bind == self.coordinator_bind
            },
    {
        if self.bytecode.is_some() {
            return Ok(self);
        }
        let bytecode = match contents {
            ProgramFileContents::Bytecode(b) => b,
            ProgramFileContents::Source(t) => {
                let compiler = Compiler::new();
                match compiler.compile_source(t.as_str()) {
                    Ok(b) => b,
                    Err(e) => {
                        return Err(e);
                    },
                }
            },
        };
        Ok(NetworkBuilder { bytecode: Some(bytecode), ..self })
    }

    /// Builds the network from the bytecode. A program file named without
    /// bytecode must have been loaded first (see [`NetworkBuilder::load_program`]);
    /// one that was not is an error, as is naming no program at all. The
    /// parameters must pass [`validate_mpc`]; the settings then name the
    /// coordinator (at the given address, or `127.0.0.1:0`) and one server
    /// per party, with ids `0..n`.
    pub fn build(self) -> (r: Result<StoffelNetwork, Error>)
        requires
            threshold_in_range(self.threshold),
        ensures
            self.bytecode is None && self.source_path is None ==> rview(r) == Err::<
                StoffelNetwork,
                ErrorView,
            >(ErrorView::Configuration("program bytecode or source file is required"@)),
            self.bytecode is None ==> (self.source_path matches Some(p) ==> rview(r) == Err::<
                StoffelNetwork,
                ErrorView,
            >(ErrorView::Configuration(unread_file_text(p@)))),
            self.bytecode is Some ==> (r is Ok <==> mpc_params_valid(self.n_parties, self.threshold)),
            self.bytecode is Some && r is Err ==> rview(r) == Err::<StoffelNetwork, ErrorView>(
                validate_mpc_result(self.n_parties, self.threshold)->Err_0,
            ),
            r matches Ok(net) ==> deployed(self, net),
    {
        let bytecode = match self.bytecode {
            Some(b) => b,
            None => {
                match &self.source_path {
                    Some(p) => {
                        let m = concat_str(concat_str(owned("program file "), p.as_str()), " has not been loaded");
                        return Err(Error::Configuration(m));
                    },
                    None => {
                        return Err(Error::Configuration(owned("program bytecode or source file is required")));
                    },
                }
            },
        };
        match validate_mpc(self.n_parties, self.threshold) {
            Ok(()) => {},
            Err(e) => {
                return Err(e);
            },
        }
        let coordinator_bind = match self.coordinator_bind {
            Some(a) => a,
            None => SocketAddress::V4 { ip: 0x7f00_0001, port: 0 },
        };
        let mut servers: Vec<ServerDeployConfig> = Vec::new();
        let mut i: usize = 0;
        while i < self.n_parties
            invariant
                i <= self.n_parties,
                servers@.len() == i,
                forall|j: int| 0 <= j < i ==> #[trigger] servers@[j] == server_entry(self, j as usize, coordinator_bind),
            decreases self.n_parties - i,
        {
            let mut pre = PreprocessingConfig::default();
            pre.triples = self.preprocessing.0;
            pre.random_shares = self.preprocessing.1;
            servers.push(ServerDeployConfig {
                party_id: Some(i),
                bind_address: None,
                coordinator: coordinator_bind,
                backend: backend_config(self.backend),
                preprocessing: pre,
                tls: self.tls_mode,
            });
            i = i + 1;
        }
        let config = NetworkDeployConfig {
            network: NetworkParams {
                parties: self.n_parties,
                threshold: self.threshold,
                backend: backend_config(self.backend),
                program: None,
            },
            coordinator: CoordinatorConfig {
                bind_address: coordinator_bind,
                expected_parties: Some(self.n_parties),
                threshold: Some(self.threshold),
                n_outputs: 1,
                tls: self.tls_mode,
            },
            server: servers,
            client: None,
        };
        Ok(StoffelNetwork { bytecode, config, inputs: Vec::new(), client_inputs: Vec::new() })
    }
}

/// The settings of server `i` built from `b` with coordinator `coord`.
pub open spec fn server_entry(b: NetworkBuilder, i: usize, coord: SocketAddress) -> ServerDeployConfig {
    ServerDeployConfig {
        party_id: Some(i),
        bind_address: None,
        coordinator: coord,
        backend: backend_config_of(b.backend),
        preprocessing: PreprocessingConfig {
            triples: b.preprocessing.0,
            random_shares: b.preprocessing.1,
            min_triples: 100,
            generate_on_startup: true,
        },
        tls: b.tls_mode,
    }
}

/// The deployment settings that the builder `b` gives.
pub open spec fn deployed_settings(b: NetworkBuilder, c: NetworkDeployConfig) -> bool {
    let coord = match b.coordinator_bind {
        Some(a) => a,
        None => default_coordinator_bind(),
    };
    &&& c.network.parties == b.n_parties
    &&& c.network.threshold == b.threshold
    &&& c.network.backend == backend_config_of(b.backend)
    &&& c.network.program is None
    &&& c.coordinator.bind_address == coord
    &&& c.coordinator.expected_parties == Some(b.n_parties)
    &&& c.coordinator.threshold == Some(b.threshold)
    &&& c.coordinator.n_outputs == 1
    &&& c.coordinator.tls == b.tls_mode
    &&& c.client is None
    &&& c.server@.len() == b.n_parties
    &&& forall|i: int| 0 <= i < b.n_parties ==> #[trigger] c.server@[i] == server_entry(
        b,
        i as usize,
        coord,
    )
}

/// What a network built from `b` holds: its bytecode, no inputs yet, and
/// the settings of [`deployed_settings`].
pub open spec fn deployed(b: NetworkBuilder, net: StoffelNetwork) -> bool {
    &&& Some(net.bytecode_spec()) == (match b.bytecode {
        Some(v) => Some(v@),
        None => None,
    })
    &&& net.inputs_spec().len() == 0
    &&& net.client_inputs_spec().len() == 0
    &&& deployed_settings(b, net.config_spec())
}

/// The builder settings of a local network of `n` parties with threshold
/// `t` on `backend`, the rest as [`NetworkBuilder::new`] has them.
pub open spec fn local_builder(n: usize, t: usize, backend: MpcBackend) -> NetworkBuilder {
    NetworkBuilder {
        bytecode: None,
        source_path: None,
        n_parties: n,
        threshold: t,
        backend,
        preprocessing: (1000usize, 500usize),
        tls_mode: TlsConfig::SelfSigned,
        coordinator_bind: None,
    }
}

impl Default for NetworkBuilder {
    fn default() -> (b: Self)
        ensures
            b.bytecode is None,
            b.source_path is None,
            b.n_parties == 5,
            b.threshold == 1,
            b.backend == MpcBackend::HoneyBadger,
            b.preprocessing == (1000usize, 500usize),
            b.tls_mode == TlsConfig::SelfSigned,
            b.coordinator_bind is None,
    {
        NetworkBuilder::new()
    }
}

/// A network ready to be run or deployed, with the inputs to run it on.
pub struct StoffelNetwork {
    bytecode: Vec<u8>,
    config: NetworkDeployConfig,
    inputs: Vec<(String, Value)>,
    client_inputs: Vec<(u64, Vec<i64>)>,
}

impl StoffelNetwork {
    /// The program's bytecode.
    pub closed spec fn bytecode_spec(&self) -> Seq<u8> {
        self.bytecode@
    }

    /// The deployment settings.
    pub closed spec fn config_spec(&self) -> NetworkDeployConfig {
        self.config
    }

    /// The named inputs.
    pub closed spec fn inputs_spec(&self) -> Seq<(Seq<char>, Value)> {
        self.inputs@.map_values(|p: (String, Value)| (p.0@, p.1))
    }

    /// The inputs per client.
    pub closed spec fn client_inputs_spec(&self) -> Seq<(u64, Seq<i64>)> {
        self.client_inputs@.map_values(|p: (u64, Vec<i64>)| (p.0, p.1@))
    }

    /// A builder of a network.
    pub fn builder() -> (b: NetworkBuilder)
        ensures
            b.bytecode is None,
            b.source_path is None,
            b.n_parties == 5,
            b.threshold == 1,
            b.backend == MpcBackend::HoneyBadger,
            b.preprocessing == (1000usize, 500usize),
            b.tls_mode == TlsConfig::SelfSigned,
            b.coordinator_bind is None,
    {
        NetworkBuilder::new()
    }

    /// A network of loaded deployment settings and the program they name,
    /// read by the caller: the settings must name a program path.
    pub fn from_parts(config: NetworkDeployConfig, bytecode: Vec<u8>) -> (r: Result<Self, Error>)
        ensures
            config.network.program is None ==> rview(r) == Err::<StoffelNetwork, ErrorView>(
                ErrorView::Configuration("network config must specify a program path"@),
            ),
            config.network.program is Some ==> (r matches Ok(n) && n.config_spec() == config
                && n.bytecode_spec() == bytecode@ && n.inputs_spec().len() == 0
                && n.client_inputs_spec().len() == 0),
    {
        if config.network.program.is_none() {
            return Err(Error::Configuration(owned("network config must specify a program path")));
        }
        let n = StoffelNetwork { bytecode, config, inputs: Vec::new(), client_inputs: Vec::new() };
        assert(n.inputs_spec() =~= Seq::empty());
        assert(n.client_inputs_spec() =~= Seq::empty());
        Ok(n)
    }

    /// Replaces the named inputs with these integers, in order.
    pub fn with_inputs(self, inputs: &[(&str, i64)]) -> (n: Self)
        ensures
            n.inputs_spec().len() == inputs@.len(),
            forall|i: int| 0 <= i < inputs@.len() ==> #[trigger] n.inputs_spec()[i] == (
                inputs@[i].0@,
                Value::Int64(inputs@[i].1),
            ),
            n.bytecode_spec() == self.bytecode_spec(),
            n.config_spec() == self.config_spec(),
            n.client_inputs_spec() == self.client_inputs_spec(),
    {
        let mut v: Vec<(String, Value)> = Vec::new();
        let mut i: usize = 0;
        while i < inputs.len()
            invariant
                i <= inputs@.len(),
                v@.len() == i,
                forall|j: int| 0 <= j < i ==> #[trigger] v@[j].0@ == inputs@[j].0@ && v@[j].1
                    == Value::Int64(inputs@[j].1),
            decreases inputs@.len() - i,
        {
            let name = owned(inputs[i].0);
            v.push((name, Value::Int64(inputs[i].1)));
            assert(v@[i as int].0@ == inputs@[i as int].0@);
            i = i + 1;
        }
        let n = StoffelNetwork { inputs: v, ..self };
        assert forall|i: int| 0 <= i < inputs@.len() implies #[trigger] n.inputs_spec()[i] == (
            inputs@[i].0@,
            Value::Int64(inputs@[i].1),
        ) by {
            assert(v@[i].0@ == inputs@[i].0@);
        }
        n
    }

    /// Replaces the named inputs with these.
    pub fn with_inputs_from(self, inputs: Vec<(String, Value)>) -> (n: Self)
        ensures
            n.inputs_spec() == inputs@.map_values(|p: (String, Value)| (p.0@, p.1)),
            n.bytecode_spec() == self.bytecode_spec(),
            n.config_spec() == self.config_spec(),
            n.client_inputs_spec() == self.client_inputs_spec(),
    {
        StoffelNetwork { inputs, ..self }
    }

    /// Replaces the per-client inputs with these.
    pub fn with_client_inputs(self, inputs: Vec<(u64, Vec<i64>)>) -> (n: Self)
        ensures
            n.client_inputs_spec() == inputs@.map_values(|p: (u64, Vec<i64>)| (p.0, p.1@)),
            n.bytecode_spec() == self.bytecode_spec(),
            n.config_spec() == self.config_spec(),
            n.inputs_spec() == self.inputs_spec(),
    {
        StoffelNetwork { client_inputs: inputs, ..self }
    }

    /// The deployment settings.
    pub fn config(&self) -> (c: &NetworkDeployConfig)
        ensures
            *c == self.config_spec(),
    {
        &self.config
    }

    /// The program's bytecode.
    pub fn bytecode(&self) -> (b: &[u8])
        ensures
            b@ == self.bytecode_spec(),
    {
        self.bytecode.as_slice()
    }

    /// The named inputs.
    pub fn inputs(&self) -> (i: &[(String, Value)])
        ensures
            i@.map_values(|p: (String, Value)| (p.0@, p.1)) == self.inputs_spec(),
    {
        self.inputs.as_slice()
    }

    /// The per-client inputs.
    pub fn client_inputs(&self) -> (i: &[(u64, Vec<i64>)])
        ensures
            i@.map_values(|p: (u64, Vec<i64>)| (p.0, p.1@)) == self.client_inputs_spec(),
    {
        self.client_inputs.as_slice()
    }

    /// The amounts of preprocessing material for a run on one machine: those
    /// of the first server, or 1000 triples and 500 random shares.
    pub fn local_preprocessing(&self) -> (p: (usize, usize))
        ensures
            p == (if self.config_spec().server@.len() > 0 {
                (
                    self.config_spec().server@[0].preprocessing.triples,
                    self.config_spec().server@[0].preprocessing.random_shares,
                )
            } else {
                (1000usize, 500usize)
            }),
    {
        if self.config.server.len() > 0 {
            (self.config.server[0].preprocessing.triples, self.config.server[0].preprocessing.random_shares)
        } else {
            (1000, 500)
        }
    }

    /// The clients of a run on one machine: those with per-client inputs,
    /// else one per named input (numbered from 0), else none.
    pub fn local_client_ids(&self) -> (ids: Vec<usize>)
        ensures
            self.client_inputs_spec().len() > 0 ==> ids@.len() == self.client_inputs_spec().len()
                && forall|i: int| 0 <= i < ids@.len() ==> #[trigger] ids@[i] == self.client_inputs_spec()[i].0 as usize,
            self.client_inputs_spec().len() == 0 ==> ids@.len() == self.inputs_spec().len()
                && forall|i: int| 0 <= i < ids@.len() ==> #[trigger] ids@[i] == i,
    {
        let mut ids: Vec<usize> = Vec::new();
        if self.client_inputs.len() > 0 {
            let mut i: usize = 0;
            while i < self.client_inputs.len()
                invariant
                    i <= self.client_inputs@.len(),
                    ids@.len() == i,
                    forall|j: int| 0 <= j < i ==> #[trigger] ids@[j] == self.client_inputs@[j].0 as usize,
                decreases self.client_inputs@.len() - i,
            {
                #[verifier::truncate]
                let id = self.client_inputs[i].0 as usize;
                ids.push(id);
                i = i + 1;
            }
        } else {
            let mut i: usize = 0;
            while i < self.inputs.len()
                invariant
                    i <= self.inputs@.len(),
                    ids@.len() == i,
                    forall|j: int| 0 <= j < i ==> #[trigger] ids@[j] == j,
                decreases self.inputs@.len() - i,
            {
                ids.push(i);
                i = i + 1;
            }
        }
        ids
    }

    /// The integer inputs to share on a run on one machine, with the client
    /// each goes to: with per-client inputs, every value of every client in
    /// order; else each named integer input to the client numbered by its
    /// position (other values are skipped).
    pub fn local_input_assignments(&self) -> (a: Vec<(usize, i64)>)
        ensures
            a@ == local_assignments(self.client_inputs_spec(), self.inputs_spec()),
    {
        let mut a: Vec<(usize, i64)> = Vec::new();
        if self.client_inputs.len() > 0 {
            let mut i: usize = 0;
            while i < self.client_inputs.len()
                invariant
                    i <= self.client_inputs@.len(),
                    self.client_inputs@.len() > 0,
                    a@ == client_assignments(self.client_inputs_spec().take(i as int)),
                decreases self.client_inputs@.len() - i,
            {
                let (id, values) = (self.client_inputs[i].0, &self.client_inputs[i].1);
                #[verifier::truncate]
                let cid = id as usize;
                let ghost before = a@;
                let mut k: usize = 0;
                while k < values.len()
                    invariant
                        k <= values@.len(),
                        a@ == before + values@.take(k as int).map_values(|v: i64| (cid, v)),
                    decreases values@.len() - k,
                {
                    a.push((cid, values[k]));
                    proof {
                        assert(values@.take(k + 1).map_values(|v: i64| (cid, v)) =~= values@.take(
                            k as int,
                        ).map_values(|v: i64| (cid, v)).push((cid, values@[k as int])));
                    }
                    k = k + 1;
                }
                proof {
                    assert(values@.take(values@.len() as int) =~= values@);
                    assert(self.client_inputs_spec().take(i + 1).drop_last() =~= self.client_inputs_spec().take(i as int));
                }
                i = i + 1;
            }
            proof {
                assert(self.client_inputs_spec().take(self.client_inputs@.len() as int) =~= self.client_inputs_spec());
            }
        } else {
            let mut i: usize = 0;
            while i < self.inputs.len()
                invariant
                    i <= self.inputs@.len(),
                    a@ == named_assignments(self.inputs_spec().take(i as int)),
                decreases self.inputs@.len() - i,
            {
                proof {
                    assert(self.inputs_spec().take(i + 1).drop_last() =~= self.inputs_spec().take(i as int));
                }
                match self.inputs[i].1 {
                    Value::Int64(v) => a.push((i, v)),
                    _ => {},
                }
                i = i + 1;
            }
            proof {
                assert(self.inputs_spec().take(self.inputs@.len() as int) =~= self.inputs_spec());
            }
        }
        a
    }
}

/// Every value of every client, in order, with the client's id.
pub open spec fn client_assignments(c: Seq<(u64, Seq<i64>)>) -> Seq<(usize, i64)>
    decreases c.len(),
{
    if c.len() == 0 {
        Seq::empty()
    } else {
        let (id, values) = c.last();
        client_assignments(c.drop_last()) + values.map_values(|v: i64| (id as usize, v))
    }
}

/// Each integer input with its position; other values are skipped.
pub open spec fn named_assignments(inputs: Seq<(Seq<char>, Value)>) -> Seq<(usize, i64)>
    decreases inputs.len(),
{
    if inputs.len() == 0 {
        Seq::empty()
    } else {
        let rest = named_assignments(inputs.drop_last());
        match inputs.last().1 {
            Value::Int64(v) => rest.push(((inputs.len() - 1) as usize, v)),
            _ => rest,
        }
    }
}

/// The inputs of a run on one machine (see
/// [`StoffelNetwork::local_input_assignments`]).
pub open spec fn local_assignments(
    client_inputs: Seq<(u64, Seq<i64>)>,
    inputs: Seq<(Seq<char>, Value)>,
) -> Seq<(usize, i64)> {
    if client_inputs.len() > 0 {
        client_assignments(client_inputs)
    } else {
        named_assignments(inputs)
    }
}

/// The first port of a run on one machine: 19200 plus the instance id
/// modulo 10000.
pub fn local_base_port(instance_id: u64) -> (p: u16)
    ensures
        p == 19200 + instance_id % 10000,
{
    19200 + (instance_id % 10000) as u16
}

/// The addresses of the parties of a run on one machine: `127.0.0.1` at
/// consecutive ports from `base`.
pub fn local_addresses(base: u16, n: usize) -> (v: Vec<SocketAddress>)
    requires
        base as int + n <= 65536,
    ensures
        v@.len() == n,
        forall|i: int| 0 <= i < n ==> #[trigger] v@[i] == (SocketAddress::V4 { ip: 0x7f00_0001, port: (base + i) as u16 }),
{
    let mut v: Vec<SocketAddress> = Vec::new();
    let mut i: usize = 0;
    while i < n
        invariant
            i <= n,
            base as int + n <= 65536,
            v@.len() == i,
            forall|j: int| 0 <= j < i ==> #[trigger] v@[j] == (SocketAddress::V4 { ip: 0x7f00_0001, port: (base + j) as u16 }),
        decreases n - i,
    {
        v.push(SocketAddress::V4 { ip: 0x7f00_0001, port: base + i as u16 });
        i = i + 1;
    }
    v
}

// ---------------------------------------------------------------------------
// Deployment files
// ---------------------------------------------------------------------------

/// The compose entry of server `i`.
pub open spec fn compose_server_block(i: nat) -> Seq<char> {
    "  server-"@ + decimal(i) + ":\n    build: { dockerfile: Dockerfile.server }\n    environment:\n      PARTY_ID: \""@
        + decimal(i) + "\"\n      COORDINATOR_ADDR: \"coordinator:31415\"\n    volumes:\n      - ./config:/app/config\n\n"@
}

/// The compose entries of servers `0..n`.
pub open spec fn compose_servers(n: nat) -> Seq<char>
    decreases n,
{
    if n == 0 {
        Seq::empty()
    } else {
        compose_servers((n - 1) as nat) + compose_server_block((n - 1) as nat)
    }
}

/// The client's dependencies on servers `0..n`.
pub open spec fn compose_depends(n: nat) -> Seq<char>
    decreases n,
{
    if n == 0 {
        Seq::empty()
    } else {
        compose_depends((n - 1) as nat) + "      - server-"@ + decimal((n - 1) as nat) + "\n"@
    }
}

/// The head of the compose file: the coordinator's entry.
pub open spec fn compose_head() -> Seq<char> {
    "services:\n  coordinator:\n    build: { dockerfile: Dockerfile.coordinator }\n    ports: [\"31415:31415\"]\n    volumes:\n      - ./config:/app/config\n      - ./program.stfb:/app/program.stfb\n\n"@
}

/// The client's entry of the compose file, up to its dependencies.
pub open spec fn compose_client() -> Seq<char> {
    "  client:\n    build: { dockerfile: Dockerfile.client }\n    environment:\n      COORDINATOR_ADDR: \"coordinator:31415\"\n    volumes:\n      - ./config:/app/config\n      - ./program.stfb:/app/program.stfb\n    depends_on:\n"@
}

/// The compose file of a network of `n` servers.
pub open spec fn compose_text(n: nat) -> Seq<char> {
    compose_head() + compose_servers(n) + compose_client() + compose_depends(n) + "      - coordinator\n"@
}

/// The compose file of a network of `n` servers: the coordinator, servers
/// `server-0` to `server-{n-1}`, and a client that depends on all of them.
pub fn compose_file(n: usize) -> (s: String)
    ensures
        s@ == compose_text(n as nat),
{
    let mut s = owned("services:\n  coordinator:\n    build: { dockerfile: Dockerfile.coordinator }\n    ports: [\"31415:31415\"]\n    volumes:\n      - ./config:/app/config\n      - ./program.stfb:/app/program.stfb\n\n");
    let mut i: usize = 0;
    while i < n
        invariant
            i <= n,
            s@ == compose_head() + compose_servers(i as nat),
        decreases n - i,
    {
        let d = usize_to_decimal(i);
        s = concat_str(s, "  server-");
        s = concat_str(s, d.as_str());
        s = concat_str(s, ":\n    build: { dockerfile: Dockerfile.server }\n    environment:\n      PARTY_ID: \"");
        s = concat_str(s, d.as_str());
        s = concat_str(s, "\"\n      COORDINATOR_ADDR: \"coordinator:31415\"\n    volumes:\n      - ./config:/app/config\n\n");
        proof {
            assert(s@ =~= compose_head() + compose_servers((i + 1) as nat));
        }
        i = i + 1;
    }
    s = concat_str(s, "  client:\n    build: { dockerfile: Dockerfile.client }\n    environment:\n      COORDINATOR_ADDR: \"coordinator:31415\"\n    volumes:\n      - ./config:/app/config\n      - ./program.stfb:/app/program.stfb\n    depends_on:\n");
    let ghost before = s@;
    let mut j: usize = 0;
    while j < n
        invariant
            j <= n,
            s@ == before + compose_depends(j as nat),
        decreases n - j,
    {
        s = concat_str(s, "      - server-");
        s = concat_str(s, usize_to_decimal(j).as_str());
        s = concat_str(s, "\n");
        proof {
            assert(s@ =~= before + compose_depends((j + 1) as nat));
        }
        j = j + 1;
    }
    s = concat_str(s, "      - coordinator\n");
    assert(s@ =~= compose_text(n as nat));
    s
}

/// The Dockerfile of the component `name`.
pub open spec fn dockerfile_text(name: Seq<char>) -> Seq<char> {
    "FROM rust:1.78 AS builder\nWORKDIR /build\nCOPY "@ + name
        + "/ ./\nRUN cargo build --release\n\nFROM debian:bookworm-slim\nRUN apt-get update && apt-get install -y ca-certificates && rm -rf /var/lib/apt/lists/*\nWORKDIR /app\nCOPY --from=builder /build/target/release/stoffel-"@
        + name + " /app/stoffel-"@ + name + "\nCOPY config/ /app/config/\nCMD [\"/app/stoffel-"@ + name
        + "\"]\n"@
}

/// The Dockerfile that builds and runs the component `name`.
pub fn dockerfile(name: &str) -> (s: String)
    ensures
        s@ == dockerfile_text(name@),
{
    let s = concat_str(owned("FROM rust:1.78 AS builder\nWORKDIR /build\nCOPY "), name);
    let s = concat_str(s, "/ ./\nRUN cargo build --release\n\nFROM debian:bookworm-slim\nRUN apt-get update && apt-get install -y ca-certificates && rm -rf /var/lib/apt/lists/*\nWORKDIR /app\nCOPY --from=builder /build/target/release/stoffel-");
    let s = concat_str(s, name);
    let s = concat_str(s, " /app/stoffel-");
    let s = concat_str(s, name);
    let s = concat_str(s, "\nCOPY config/ /app/config/\nCMD [\"/app/stoffel-");
    let s = concat_str(s, name);
    let s = concat_str(s, "\"]\n");
    assert(s@ =~= dockerfile_text(name@));
    s
}

/// The Cargo manifest of the component crate `name`.
pub open spec fn component_manifest_text(name: Seq<char>) -> Seq<char> {
    "[package]\nname = \"stoffel-"@ + name
        + "\"\nversion = \"0.1.0\"\nedition = \"2021\"\n\n[dependencies]\nstoffel-rust-sdk = { git = \"https://github.com/Stoffel-Labs/stoffel-rust-sdk.git\" }\ntokio = { version = \"1.0\", features = [\"full\"] }\n"@
}

/// The Cargo manifest of the component crate `name`.
pub fn component_manifest(name: &str) -> (s: String)
    ensures
        s@ == component_manifest_text(name@),
{
    let s = concat_str(owned("[package]\nname = \"stoffel-"), name);
    let s = concat_str(
        s,
        "\"\nversion = \"0.1.0\"\nedition = \"2021\"\n\n[dependencies]\nstoffel-rust-sdk = { git = \"https://github.com/Stoffel-Labs/stoffel-rust-sdk.git\" }\ntokio = { version = \"1.0\", features = [\"full\"] }\n",
    );
    assert(s@ =~= component_manifest_text(name@));
    s
}

/// The coordinator's settings file: a header, the expected parties and the
/// threshold, then `settings`, the coordinator's section as TOML.
pub open spec fn coordinator_config_text(n: nat, t: nat, settings: Seq<char>) -> Seq<char> {
    "# Coordinator configuration\n# Bind address and TLS can be overridden via BIND_ADDRESS and STOFFEL_TLS_MODE env vars\n\n[coordinator]\nexpected_parties = "@
        + decimal(n) + "\nthreshold = "@ + decimal(t) + "\n\n"@ + settings
}

/// The coordinator's settings file (see [`coordinator_config_text`]).
pub fn coordinator_config(n: usize, t: usize, settings: &str) -> (s: String)
    ensures
        s@ == coordinator_config_text(n as nat, t as nat, settings@),
{
    let s = owned(
        "# Coordinator configuration\n# Bind address and TLS can be overridden via BIND_ADDRESS and STOFFEL_TLS_MODE env vars\n\n[coordinator]\nexpected_parties = ",
    );
    let s = concat_str(s, usize_to_decimal(n).as_str());
    let s = concat_str(s, "\nthreshold = ");
    let s = concat_str(s, usize_to_decimal(t).as_str());
    let s = concat_str(s, "\n\n");
    let s = concat_str(s, settings);
    assert(s@ =~= coordinator_config_text(n as nat, t as nat, settings@));
    s
}

/// A server's settings file: the coordinator it reaches, the HoneyBadger
/// backend, the preprocessing amounts and self-signed TLS.
pub open spec fn server_config_text(triples: nat, random_shares: nat) -> Seq<char> {
    "# Server configuration\n# PARTY_ID is set via env var per container\n# COORDINATOR_ADDR overrides the coordinator address\n\n[server]\ncoordinator = \"coordinator:31415\"\n\n[server.backend]\nprotocol = \"honeybadger\"\n\n[server.preprocessing]\ntriples = "@
        + decimal(triples) + "\nrandom_shares = "@ + decimal(random_shares)
        + "\n\n[server.tls]\nmode = \"self-signed\"\n"@
}

/// A server's settings file (see [`server_config_text`]).
pub fn server_config(triples: usize, random_shares: usize) -> (s: String)
    ensures
        s@ == server_config_text(triples as nat, random_shares as nat),
{
    let s = owned(
        "# Server configuration\n# PARTY_ID is set via env var per container\n# COORDINATOR_ADDR overrides the coordinator address\n\n[server]\ncoordinator = \"coordinator:31415\"\n\n[server.backend]\nprotocol = \"honeybadger\"\n\n[server.preprocessing]\ntriples = ",
    );
    let s = concat_str(s, usize_to_decimal(triples).as_str());
    let s = concat_str(s, "\nrandom_shares = ");
    let s = concat_str(s, usize_to_decimal(random_shares).as_str());
    let s = concat_str(s, "\n\n[server.tls]\nmode = \"self-signed\"\n");
    assert(s@ =~= server_config_text(triples as nat, random_shares as nat));
    s
}

/// The client's settings file: the coordinator it reaches, the program
/// file and self-signed TLS.
pub open spec fn client_config_text() -> Seq<char> {
    "# Client configuration\n# COORDINATOR_ADDR overrides the coordinator address\n\n[client]\ncoordinator = \"coordinator:31415\"\nprogram = \"program.stfb\"\n\n[client.tls]\nmode = \"self-signed\"\n"@
}

/// The client's settings file (see [`client_config_text`]).
pub fn client_config() -> (s: String)
    ensures
        s@ == client_config_text(),
{
    owned(
        "# Client configuration\n# COORDINATOR_ADDR overrides the coordinator address\n\n[client]\ncoordinator = \"coordinator:31415\"\nprogram = \"program.stfb\"\n\n[client.tls]\nmode = \"self-signed\"\n",
    )
}

} // verus!
