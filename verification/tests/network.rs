use stoffel_rust_sdk::backend::MpcBackend;
use stoffel_rust_sdk::config::MpcBackendConfig;
use stoffel_rust_sdk::error::Error;
use stoffel_rust_sdk::network::{
    client_config, component_manifest, compose_file, coordinator_config, dockerfile, local_addresses,
    server_config, local_base_port, program_file_kind, NetworkBuilder,
    ProgramFileContents, ProgramFileKind, StoffelNetwork,
};
use stoffel_rust_sdk::network_config::{NetworkConfig, NetworkConfigBuilder};
use stoffel_rust_sdk::types::{SocketAddress, Value};

#[test]
fn network_builder_defaults() {
    let builder = NetworkBuilder::new();
    assert_eq!(builder.n_parties, 5);
    assert_eq!(builder.threshold, 1);
    assert!(matches!(builder.backend, MpcBackend::HoneyBadger));
}

#[test]
fn builder_requires_program() {
    let result = StoffelNetwork::builder().build();
    assert!(result.is_err());
    assert!(result.err().unwrap().message().contains("program"));
}

#[test]
fn builder_validates_mpc_params() {
    let result = StoffelNetwork::builder().program(vec![0u8; 10]).parties(3).threshold(1).build();
    assert!(result.is_err());
}

#[test]
fn builder_creates_network() {
    let network = StoffelNetwork::builder().program(vec![0u8; 10]).parties(5).threshold(1).build().unwrap();
    assert_eq!(network.config().network.parties, 5);
    assert_eq!(network.config().network.threshold, 1);
    assert_eq!(network.config().server.len(), 5);
    assert_eq!(network.bytecode().len(), 10);
    assert_eq!(network.config().server[3].party_id, Some(3));
    assert_eq!(network.config().coordinator.bind_address, SocketAddress::v4(127, 0, 0, 1, 0));
    assert_eq!(network.config().network.backend, MpcBackendConfig::HoneyBadger);
}

#[test]
fn with_inputs() {
    let network = StoffelNetwork::builder()
        .program(vec![0u8; 10])
        .build()
        .unwrap()
        .with_inputs(&[("a", 42i64), ("b", 58i64)]);
    assert_eq!(network.inputs().len(), 2);
    assert_eq!(network.inputs()[1].1, Value::Int64(58));
}

#[test]
fn local_plan() {
    let network = StoffelNetwork::builder()
        .program(vec![0u8; 10])
        .build()
        .unwrap()
        .with_inputs_from(vec![
            ("a".to_string(), Value::Int64(4)),
            ("b".to_string(), Value::Bool(true)),
            ("c".to_string(), Value::Int64(6)),
        ]);
    assert_eq!(network.local_client_ids(), vec![0, 1, 2]);
    assert_eq!(network.local_input_assignments(), vec![(0, 4), (2, 6)]);
    assert_eq!(network.local_preprocessing(), (1000, 500));
    let network = network.with_client_inputs(vec![(9, vec![1, 2]), (3, vec![5])]);
    assert_eq!(network.local_client_ids(), vec![9, 3]);
    assert_eq!(network.local_input_assignments(), vec![(9, 1), (9, 2), (3, 5)]);
}

#[test]
fn local_ports_and_addresses() {
    assert_eq!(local_base_port(123_456), 19200 + 3456);
    let a = local_addresses(19200, 3);
    assert_eq!(a, vec![
        SocketAddress::v4(127, 0, 0, 1, 19200),
        SocketAddress::v4(127, 0, 0, 1, 19201),
        SocketAddress::v4(127, 0, 0, 1, 19202),
    ]);
}

#[test]
fn program_file_kinds() {
    assert_eq!(program_file_kind("prog.stfl"), ProgramFileKind::Source);
    assert_eq!(program_file_kind("dir.v2/prog.stfl"), ProgramFileKind::Source);
    assert_eq!(program_file_kind("prog.stfb"), ProgramFileKind::Binary);
    assert_eq!(program_file_kind(".stfl"), ProgramFileKind::Binary);
    assert_eq!(program_file_kind("dir.stfl/prog"), ProgramFileKind::Binary);
}

#[test]
fn compose_lists_every_server() {
    let compose = compose_file(4);
    assert!(compose.starts_with("services:\n  coordinator:\n"));
    assert!(compose.contains("server-0"));
    assert!(compose.contains("server-3"));
    assert!(!compose.contains("server-4"));
    assert!(compose.ends_with("      - server-3\n      - coordinator\n"));
}

#[test]
fn dockerfile_names_component() {
    let d = dockerfile("server");
    assert!(d.contains("COPY server/ ./"));
    assert!(d.ends_with("CMD [\"/app/stoffel-server\"]\n"));
}

#[test]
fn test_valid_config() {
    let config = NetworkConfigBuilder::new()
        .party_id(0)
        .bind_address("127.0.0.1:9001")
        .bootstrap_address("127.0.0.1:9000")
        .n_parties(5)
        .threshold(1)
        .build()
        .unwrap();
    assert_eq!(config.network.party_id, 0);
    assert_eq!(config.mpc.n_parties, 5);
    assert_eq!(config.mpc.threshold, 1);
    assert!(NetworkConfig::validate_addresses(
        &Ok(SocketAddress::v4(127, 0, 0, 1, 9001)),
        &Ok(SocketAddress::v4(127, 0, 0, 1, 9000))
    )
    .is_ok());
}

#[test]
fn test_invalid_mpc_params() {
    let result = NetworkConfigBuilder::new()
        .party_id(0)
        .bind_address("127.0.0.1:9001")
        .bootstrap_address("127.0.0.1:9000")
        .n_parties(3)
        .threshold(1)
        .build();
    assert!(result.is_err());
}

#[test]
fn test_invalid_party_id() {
    let result = NetworkConfigBuilder::new()
        .party_id(5)
        .bind_address("127.0.0.1:9001")
        .bootstrap_address("127.0.0.1:9000")
        .n_parties(5)
        .threshold(1)
        .build();
    match result {
        Err(Error::InvalidInput(m)) => assert_eq!(m, "Invalid party_id=5: must be < n_parties=5"),
        _ => panic!("expected invalid input"),
    }
}

#[test]
fn network_config_missing_fields() {
    match NetworkConfigBuilder::new().build() {
        Err(Error::InvalidInput(m)) => assert_eq!(m, "party_id not set"),
        _ => panic!("expected invalid input"),
    }
    match NetworkConfigBuilder::new().party_id(0).bind_address("a").bootstrap_address("b").build() {
        Err(Error::InvalidInput(m)) => assert_eq!(m, "n_parties not set"),
        _ => panic!("expected invalid input"),
    }
    match NetworkConfig::validate_addresses(&Err("bad".to_string()), &Ok(SocketAddress::v4(1, 2, 3, 4, 5))) {
        Err(Error::InvalidInput(m)) => assert_eq!(m, "Invalid bind_address: bad"),
        _ => panic!("expected invalid input"),
    }
}

#[test]
fn unloaded_program_file_is_an_error() {
    let err = StoffelNetwork::builder().program_file("prog.stfl").build().err().unwrap();
    match err {
        Error::Configuration(m) => assert_eq!(m, "program file prog.stfl has not been loaded"),
        _ => panic!("expected a configuration error"),
    }
}

#[test]
fn load_program_takes_file_bytes() {
    let builder = StoffelNetwork::builder()
        .program_file("prog.stfb")
        .load_program(ProgramFileContents::Bytecode(vec![1, 2, 3]))
        .unwrap();
    assert_eq!(builder.bytecode, Some(vec![1, 2, 3]));
    let network = builder.parties(5).threshold(1).build().unwrap();
    assert_eq!(network.bytecode(), &[1, 2, 3]);
}

#[test]
fn load_program_compiles_source_text() {
    let builder = StoffelNetwork::builder()
        .program_file("prog.stfl")
        .load_program(ProgramFileContents::Source("def main() -> int64:\n  return 42".to_string()))
        .unwrap();
    assert!(builder.bytecode.map(|b| !b.is_empty()).unwrap_or(false));
    let bad = StoffelNetwork::builder()
        .program_file("prog.stfl")
        .load_program(ProgramFileContents::Source("not a program".to_string()));
    assert!(matches!(bad, Err(Error::Compilation(_))));
}

#[test]
fn load_program_keeps_given_bytecode() {
    let builder = StoffelNetwork::builder()
        .program(vec![9])
        .load_program(ProgramFileContents::Bytecode(vec![1]))
        .unwrap();
    assert_eq!(builder.bytecode, Some(vec![9]));
}

#[test]
fn deployment_setting_texts() {
    assert_eq!(
        component_manifest("server"),
        "[package]\nname = \"stoffel-server\"\nversion = \"0.1.0\"\nedition = \"2021\"\n\n[dependencies]\nstoffel-rust-sdk = { git = \"https://github.com/Stoffel-Labs/stoffel-rust-sdk.git\" }\ntokio = { version = \"1.0\", features = [\"full\"] }\n"
    );
    assert_eq!(
        coordinator_config(5, 1, "bind_address = \"127.0.0.1:0\"\n"),
        "# Coordinator configuration\n# Bind address and TLS can be overridden via BIND_ADDRESS and STOFFEL_TLS_MODE env vars\n\n[coordinator]\nexpected_parties = 5\nthreshold = 1\n\nbind_address = \"127.0.0.1:0\"\n"
    );
    assert_eq!(
        server_config(1000, 500),
        "# Server configuration\n# PARTY_ID is set via env var per container\n# COORDINATOR_ADDR overrides the coordinator address\n\n[server]\ncoordinator = \"coordinator:31415\"\n\n[server.backend]\nprotocol = \"honeybadger\"\n\n[server.preprocessing]\ntriples = 1000\nrandom_shares = 500\n\n[server.tls]\nmode = \"self-signed\"\n"
    );
    assert!(client_config().starts_with("# Client configuration\n"));
    assert!(client_config().contains("program = \"program.stfb\"\n"));
}
