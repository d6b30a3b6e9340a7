use stoffel_rust_sdk::server::{HealthStatus, ServerState, StoffelServer};
use stoffel_rust_sdk::types::{Duration, PartyId, SocketAddress};

#[test]
fn server_builder_defaults() {
    let server = StoffelServer::builder(0).build().unwrap();
    assert_eq!(server.party_id(), PartyId::from(0));
    assert_eq!(server.state(), ServerState::Initialized);
    assert!(!server.ready());
    assert_eq!(server.connected_peers(), 0);
    assert_eq!(server.connected_clients(), 0);
    assert_eq!(server.computations_completed(), 0);
}

#[test]
fn builder_with_peers() {
    let server = StoffelServer::builder(1)
        .bind(Some(SocketAddress::v4(127, 0, 0, 1, 9001)))
        .mpc_port(9101)
        .with_peers(&[(0, "127.0.0.1:9000"), (2, "127.0.0.1:9002")])
        .with_preprocessing(2000, 1000)
        .expected_clients(5)
        .consensus_timeout(Duration::from_secs(60))
        .build()
        .unwrap();
    assert_eq!(server.party_id(), PartyId::from(1));
    assert_eq!(server.bind_addr, SocketAddress::v4(127, 0, 0, 1, 9001));
    assert_eq!(server.mpc_port, 9101);
    assert_eq!(server.peers.len(), 2);
    assert_eq!(server.preprocessing.triples, 2000);
    assert_eq!(server.preprocessing.random_shares, 1000);
    assert_eq!(server.expected_clients, Some(5));
    assert_eq!(server.consensus_timeout, Duration::from_secs(60));
}

#[test]
fn health_initialized_is_degraded() {
    let server = StoffelServer::builder(0).build().unwrap();
    let health = server.health();
    assert!(health.is_operational());
    assert!(!health.is_healthy());
}

#[test]
fn health_status_methods() {
    assert!(HealthStatus::Healthy.is_healthy());
    assert!(HealthStatus::Healthy.is_operational());
    let degraded = HealthStatus::Degraded { reason: "test".into() };
    assert!(!degraded.is_healthy());
    assert!(degraded.is_operational());
    let unhealthy = HealthStatus::Unhealthy { reason: "down".into() };
    assert!(!unhealthy.is_healthy());
    assert!(!unhealthy.is_operational());
}

#[test]
fn start_transitions_to_ready() {
    let mut server = StoffelServer::builder(0).build().unwrap();
    assert_eq!(server.state(), ServerState::Initialized);
    server.start().unwrap();
    assert_eq!(server.state(), ServerState::Ready);
    assert!(server.ready());
}

#[test]
fn double_start_fails() {
    let mut server = StoffelServer::builder(0).build().unwrap();
    server.start().unwrap();
    let err = server.start().unwrap_err();
    assert!(err.message().contains("Cannot start server"));
}

#[test]
fn shutdown_transitions_to_stopped() {
    let mut server = StoffelServer::builder(0).build().unwrap();
    server.start().unwrap();
    server.shutdown().unwrap();
}
