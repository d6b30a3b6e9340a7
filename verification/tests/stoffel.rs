use stoffel_rust_sdk::advanced::NetworkBuilder as LocalNetworkBuilder;
use stoffel_rust_sdk::backend::MpcBackend;
use stoffel_rust_sdk::computation_handle::ComputationHandle;
use stoffel_rust_sdk::config::{Curve, MpcBackendConfig, MpcConfig, NetworkConfig, PreprocessingConfig, StoffelConfig};
use stoffel_rust_sdk::error::Error;
use stoffel_rust_sdk::mpc_network::MPCNetworkConfig;
use stoffel_rust_sdk::session::{check_input_count, output_value, MPCNodeBuilder, ProtocolType};
use stoffel_rust_sdk::types::{ClientId, Duration, SocketAddress, Value};
use stoffel_rust_sdk::Stoffel;

#[test]
fn build_without_parties_has_no_mpc_config() {
    let rt = Stoffel::load(&[1, 2, 3]).build().unwrap();
    assert!(rt.mpc_config().is_none());
    assert_eq!(rt.program().bytecode(), &[1, 2, 3]);
}

#[test]
fn build_validates_parties_and_threshold() {
    let err = Stoffel::load(&[1]).parties(3).build().err().unwrap();
    match err {
        Error::Configuration(m) => assert_eq!(m, "parties must be >= 4 for HoneyBadger BFT, got 3"),
        _ => panic!("expected a configuration error"),
    }
    assert!(Stoffel::load(&[1]).parties(5).threshold(2).build().is_err());
    let rt = Stoffel::load(&[1])
        .parties(7)
        .threshold(2)
        .backend(MpcBackend::Avss { curve: Curve::Bn254 })
        .with_inputs(&[("a", 1), ("b", 2)])
        .build()
        .unwrap();
    let mpc = rt.mpc_config().unwrap();
    assert_eq!(mpc.parties, 7);
    assert_eq!(mpc.threshold, 2);
    assert_eq!(mpc.backend, MpcBackendConfig::Avss { curve: Curve::Bn254 });
    assert_eq!(rt.inputs().len(), 2);
    assert_eq!(rt.inputs()[0].0, "a");
    assert_eq!(rt.inputs()[1].1, Value::Int64(2));
}

#[test]
fn default_threshold_is_one() {
    let rt = Stoffel::load(&[1]).parties(4).build().unwrap();
    assert_eq!(rt.mpc_config().unwrap().threshold, 1);
    assert_eq!(rt.mpc_config().unwrap().backend, MpcBackendConfig::HoneyBadger);
}

#[test]
fn config_file_fills_only_unset_settings() {
    let config = StoffelConfig {
        mpc: MpcConfig { parties: 9, threshold: 2, instance_id: 3, backend: MpcBackendConfig::Avss { curve: Curve::Ed25519 } },
        network: NetworkConfig {
            party_id: 0,
            bind_address: SocketAddress::v4(0, 0, 0, 0, 9000),
            mpc_port: None,
            expected_parties: 9,
            expected_clients: None,
            consensus_timeout_ms: 30_000,
            peers: Vec::new(),
        },
        preprocessing: PreprocessingConfig::default(),
    };
    let rt = Stoffel::load(&[1]).parties(7).config_file(&config).build().unwrap();
    let mpc = rt.mpc_config().unwrap();
    assert_eq!(mpc.parties, 7);
    assert_eq!(mpc.threshold, 2);
    assert_eq!(mpc.backend, MpcBackendConfig::Avss { curve: Curve::Ed25519 });
}

#[test]
fn compile_rejects_bad_source() {
    assert!(matches!(Stoffel::compile("not a program"), Err(Error::Compilation(_))));
}

#[test]
fn runtime_builders() {
    let rt = Stoffel::load(&[1]).parties(4).build().unwrap();
    let id = rt.mpc_config().unwrap().instance_id;
    assert_eq!(rt.client().client_id, Some(ClientId(id)));
    let sb = rt.server(2);
    assert_eq!(sb.preprocessing.triples, 1000);
    assert_eq!(sb.preprocessing.random_shares, 500);
    let rt = Stoffel::load(&[1]).build().unwrap();
    assert_eq!(rt.client().client_id, None);
}

#[test]
fn node_builder_defaults() {
    let node = MPCNodeBuilder::new(0, 4, 1, 5, ProtocolType::HoneyBadger).with_inputs(vec![10, 20]).build().unwrap();
    assert_eq!(node.party_id(), 0);
    assert_eq!(node.inputs(), &[10, 20]);
    assert_eq!(node.instance_id(), 5);
    match MPCNodeBuilder::new(4, 4, 1, 5, ProtocolType::HoneyBadger).build() {
        Err(Error::InvalidInput(m)) => assert_eq!(m, "party_id=4 must be < n_parties=4"),
        _ => panic!("expected invalid input"),
    }
    match MPCNodeBuilder::new(0, 3, 1, 5, ProtocolType::HoneyBadger).build() {
        Err(Error::InvalidInput(m)) => assert_eq!(m, "Invalid parameters: n=3 must be >= 3t+1=4 for t=1"),
        _ => panic!("expected invalid input"),
    }
    let mut node = MPCNodeBuilder::new(1, 4, 1, 5, ProtocolType::HoneyBadger).build().unwrap();
    assert!(node.run(&[]).is_err());
}

#[test]
fn output_value_reads_little_endian() {
    assert_eq!(output_value(&[42]), 42);
    assert_eq!(output_value(&[0x00, 0x01]), 256);
    assert_eq!(output_value(&[1, 0, 0, 0, 0, 0, 0, 0, 99, 99]), 1);
    assert_eq!(output_value(&[0xff; 8]), -1);
    assert_eq!(output_value(&[]), 0);
    assert!(check_input_count(2).is_ok());
    match check_input_count(1) {
        Err(Error::Runtime(m)) => assert_eq!(m, "Expected at least 2 inputs, got 1"),
        _ => panic!("expected a runtime error"),
    }
}

#[test]
fn computation_handle_keeps_its_result() {
    let (tx, rx) = tokio::sync::mpsc::channel(1);
    let mut handle = ComputationHandle::new(rx);
    assert!(handle.try_result().is_none());
    tx.try_send(Ok(vec![42])).unwrap();
    assert_eq!(handle.try_result().unwrap().unwrap(), vec![42]);
    drop(tx);
    assert_eq!(handle.try_result().unwrap().unwrap(), vec![42]);
    assert_eq!(handle.finish(None).unwrap(), vec![42]);
}

#[test]
fn computation_handle_dropped_sender() {
    let (tx, rx) = tokio::sync::mpsc::channel::<Result<Vec<i64>, Error>>(1);
    let mut handle = ComputationHandle::new(rx);
    drop(tx);
    match handle.try_result() {
        Some(Err(Error::Computation(m))) => assert_eq!(m, "Computation task was dropped"),
        _ => panic!("expected a computation error"),
    }
}

#[test]
fn computation_handle_keeps_error_text() {
    let (tx, rx) = tokio::sync::mpsc::channel(1);
    let mut handle = ComputationHandle::new(rx);
    tx.try_send(Err(Error::InvalidInput("bad".to_string()))).unwrap();
    assert!(matches!(handle.try_result(), Some(Err(Error::InvalidInput(_)))));
    match handle.try_result() {
        Some(Err(Error::Computation(m))) => assert_eq!(m, "Invalid input: bad"),
        _ => panic!("expected the kept error"),
    }
}

#[test]
fn local_network_settings() {
    let c = LocalNetworkBuilder::new(4, 1).base_port(20000).instance_id(7).build();
    assert_eq!((c.n_parties, c.threshold, c.base_port, c.instance_id), (4, 1, 20000, 7));
    assert!(c.validate().is_ok());
    let c = LocalNetworkBuilder::new(3, 1).build();
    match c.validate() {
        Err(Error::Configuration(m)) => {
            assert_eq!(m, "Invalid configuration: n_parties (3) must be >= 3*threshold+1 (4)")
        }
        _ => panic!("expected a configuration error"),
    }
}

#[test]
fn mpc_network_defaults() {
    let c = MPCNetworkConfig::default();
    assert_eq!(c.mpc_timeout, Duration::from_secs(5));
    assert_eq!(c.max_connection_retries, 5);
    assert_eq!(c.connection_retry_delay, Duration::from_millis(100));
}

#[test]
fn local_network_defaults_and_inputs() {
    let net = Stoffel::load(&[7, 8]).with_inputs(&[("a", 3), ("b", 4)]).local_network().unwrap();
    assert_eq!(net.bytecode(), &[7, 8]);
    assert_eq!(net.config().network.parties, 5);
    assert_eq!(net.config().network.threshold, 1);
    assert_eq!(net.config().network.backend, MpcBackendConfig::HoneyBadger);
    assert_eq!(net.config().server.len(), 5);
    assert_eq!(net.inputs().len(), 2);
    assert_eq!(net.inputs()[0].0, "a");
    assert_eq!(net.inputs()[1].1, Value::Int64(4));
}

#[test]
fn local_network_takes_set_parameters() {
    let net = Stoffel::load(&[1])
        .parties(7)
        .threshold(2)
        .backend(MpcBackend::Avss { curve: Curve::Bls12_381 })
        .local_network()
        .unwrap();
    assert_eq!(net.config().network.parties, 7);
    assert_eq!(net.config().network.threshold, 2);
    assert_eq!(net.config().server.len(), 7);
    assert!(Stoffel::load(&[1]).parties(5).threshold(2).local_network().is_err());
}
