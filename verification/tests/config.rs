use stoffel_rust_sdk::config::env::EnvOverrides;
use stoffel_rust_sdk::config::validation::{validate_mpc, validate_network};
use stoffel_rust_sdk::config::{
    Curve, MpcBackendConfig, MpcConfig, NetworkConfig, PreprocessingConfig, StoffelConfig,
};
use stoffel_rust_sdk::error::Error;
use stoffel_rust_sdk::types::SocketAddress;

fn sample_network() -> NetworkConfig {
    NetworkConfig {
        party_id: 0,
        bind_address: SocketAddress::v4(127, 0, 0, 1, 9000),
        mpc_port: None,
        expected_parties: 5,
        expected_clients: None,
        consensus_timeout_ms: 30_000,
        peers: Vec::new(),
    }
}

#[test]
fn test_mpc_config_defaults() {
    let config = MpcConfig::default();
    assert_eq!(config.parties, 5);
    assert_eq!(config.threshold, 1);
    assert_eq!(config.backend, MpcBackendConfig::HoneyBadger);
    let _ = config.instance_id;
}

#[test]
fn test_mpc_config_validate_ok() {
    let config = MpcConfig { parties: 5, threshold: 1, instance_id: 42, backend: MpcBackendConfig::HoneyBadger };
    assert!(config.validate().is_ok());
}

#[test]
fn test_mpc_config_validate_too_few_parties() {
    let config = MpcConfig { parties: 3, threshold: 1, instance_id: 0, backend: MpcBackendConfig::HoneyBadger };
    assert!(config.validate().is_err());
}

#[test]
fn test_mpc_config_validate_threshold_too_high() {
    let config = MpcConfig { parties: 5, threshold: 2, instance_id: 0, backend: MpcBackendConfig::HoneyBadger };
    assert!(config.validate().is_err());
}

#[test]
fn test_preprocessing_defaults() {
    let config = PreprocessingConfig::default();
    assert_eq!(config.triples, 1000);
    assert_eq!(config.random_shares, 500);
    assert_eq!(config.min_triples, 100);
    assert!(config.generate_on_startup);
}

#[test]
fn test_curve_field_bits() {
    assert_eq!(Curve::Bls12_381.field_bits(), 381);
    assert_eq!(Curve::Bn254.field_bits(), 254);
    assert_eq!(Curve::Curve25519.field_bits(), 255);
    assert_eq!(Curve::Ed25519.field_bits(), 255);
}

#[test]
fn test_curve_security_bits() {
    assert_eq!(Curve::Bls12_381.security_bits(), 128);
    assert_eq!(Curve::Bn254.security_bits(), 100);
    assert_eq!(Curve::Curve25519.security_bits(), 128);
    assert_eq!(Curve::Ed25519.security_bits(), 128);
}

#[test]
fn mod_test_curve_default() {
    assert_eq!(Curve::default(), Curve::Bls12_381);
}

#[test]
fn test_backend_default() {
    assert_eq!(MpcBackendConfig::default(), MpcBackendConfig::HoneyBadger);
}

#[test]
fn test_network_config_validate_ok() {
    let config = sample_network();
    assert!(config.validate().is_ok());
}

#[test]
fn network_config_needs_two_parties() {
    let mut config = sample_network();
    config.expected_parties = 1;
    match config.validate() {
        Err(Error::Configuration(m)) => assert_eq!(m, "expected_parties must be >= 2, got 1"),
        _ => panic!("expected a configuration error"),
    }
}

fn sample_config() -> StoffelConfig {
    StoffelConfig {
        mpc: MpcConfig { parties: 5, threshold: 1, instance_id: 1, backend: MpcBackendConfig::HoneyBadger },
        network: sample_network(),
        preprocessing: PreprocessingConfig::default(),
    }
}

#[test]
fn test_env_override_parties() {
    let mut config = sample_config();
    let mut env = EnvOverrides::none();
    env.parties = Some("7".to_string());
    env.threshold = Some("2".to_string());
    config.apply_env_overrides(&env).unwrap();
    assert_eq!(config.mpc.parties, 7);
    assert_eq!(config.mpc.threshold, 2);
}

#[test]
fn test_env_override_backend() {
    let mut config = sample_config();
    let mut env = EnvOverrides::none();
    env.backend = Some("avss".to_string());
    env.curve = Some("bn254".to_string());
    config.apply_env_overrides(&env).unwrap();
    assert_eq!(config.mpc.backend, MpcBackendConfig::Avss { curve: Curve::Bn254 });
}

#[test]
fn test_env_override_bind_address() {
    let mut config = sample_config();
    let mut env = EnvOverrides::none();
    env.bind_address = Some(("0.0.0.0:8080".to_string(), Some(SocketAddress::v4(0, 0, 0, 0, 8080))));
    config.apply_env_overrides(&env).unwrap();
    assert_eq!(config.network.bind_address, SocketAddress::v4(0, 0, 0, 0, 8080));
}

#[test]
fn test_env_override_invalid_value() {
    let mut config = sample_config();
    let mut env = EnvOverrides::none();
    env.parties = Some("not_a_number".to_string());
    let result = config.apply_env_overrides(&env);
    assert!(result.is_err());
}

#[test]
fn env_overrides_absent_leave_config_unchanged() {
    let mut config = sample_config();
    let before = config.clone();
    config.apply_env_overrides(&EnvOverrides::none()).unwrap();
    assert_eq!(config, before);
}

#[test]
fn stoffel_config_validate_checks_mpc_first() {
    let mut config = sample_config();
    config.mpc.parties = 3;
    config.network.expected_parties = 1;
    match config.validate() {
        Err(Error::Configuration(m)) => assert_eq!(m, "parties must be >= 4 for HoneyBadger BFT, got 3"),
        _ => panic!("expected a configuration error"),
    }
}

#[test]
fn test_valid_mpc_configs() {
    assert!(validate_mpc(4, 1).is_ok());
    assert!(validate_mpc(5, 1).is_ok());
    assert!(validate_mpc(7, 2).is_ok());
    assert!(validate_mpc(10, 3).is_ok());
}

#[test]
fn test_invalid_mpc_too_few_parties() {
    let err = validate_mpc(3, 1).unwrap_err();
    match err {
        Error::Configuration(msg) => assert!(msg.contains("parties must be >= 4")),
        _ => panic!("expected Configuration error"),
    }
}

#[test]
fn test_invalid_mpc_threshold_too_high() {
    let err = validate_mpc(5, 2).unwrap_err();
    match err {
        Error::Configuration(msg) => assert!(msg.contains("3 * threshold + 1")),
        _ => panic!("expected Configuration error"),
    }
}

#[test]
fn validate_mpc_threshold_message_exact() {
    match validate_mpc(5, 2) {
        Err(Error::Configuration(m)) => {
            assert_eq!(m, "parties must be >= 3 * threshold + 1 for HoneyBadger BFT: parties=5 < 3*2+1=7")
        }
        _ => panic!("expected Configuration error"),
    }
}

#[test]
fn test_valid_network() {
    assert!(validate_network(2).is_ok());
    assert!(validate_network(5).is_ok());
}

#[test]
fn test_invalid_network() {
    let err = validate_network(1).unwrap_err();
    match err {
        Error::Configuration(msg) => assert!(msg.contains("expected_parties must be >= 2")),
        _ => panic!("expected Configuration error"),
    }
}

#[test]
fn peer_address_looks_up_by_party_id() {
    let mut net = sample_network();
    net.peers = vec![
        ("1".to_string(), "127.0.0.1:9001".to_string()),
        ("2".to_string(), "127.0.0.1:9002".to_string()),
    ];
    assert_eq!(net.peer_address("1").unwrap(), "127.0.0.1:9001");
    assert_eq!(net.peer_address("2").unwrap(), "127.0.0.1:9002");
    assert!(net.peer_address("3").is_none());
}
