# stoffel_rust_sdk

A Rust SDK for writing, configuring and running Stoffel programs on
multi-party computation (MPC) networks, written in Verus: the logic of the
SDK carries `requires`/`ensures` contracts that Verus proves.

## Layout

- `src/` — the verified library.
  - `lib.rs`: the `Stoffel` builder (compile or load a program, choose
    parties, threshold and backend, build a runtime).
  - `compiler`, `program`: compiling Stoffel source with `stoffellang` and
    reading a compiled program's function table.
  - `config`: the configuration model, its validation and the environment
    overrides.
  - `network`, `network_config`, `advanced`: network deployment settings,
    the local test network and their checks (`n >= 3t + 1`).
  - `mpcaas`: the MPC-as-a-service wire framing, the client's handshake and
    computation progress, and the server's peer schedule, client sessions and
    message pumps, each as a state machine from event to action.
  - `coordinator`: the coordinator's job types and the decisions of its HTTP
    client.
  - `peer_manager`, `client_handler`, `consensus`, `computation_handle`,
    `session`, `server`, `client`, `runtime`, `backend`, `observability`:
    the remaining components.
  - `error`, `types`, `text`: errors, plain value types and text helpers.
- `tests/` — tests of the library on concrete values.
- `app/` — what Verus does not see: file I/O, socket-address parsing, the
  environment, TOML/JSON/bincode encodings through serde, HTTP calls to the
  coordinator, logging, and the floating-point metrics. The transports and the
  MPC engine that would drive the server, client and local-network state
  machines are not part of this crate.

Calls into outside crates (`stoffellang`, `base64`, `uuid`, `rand`,
`reqwest`, `tokio`) go through small trusted wrappers in `src/`, each with a
doc comment that states what its contract claims of the outside function.
