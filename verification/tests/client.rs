use stoffel_rust_sdk::client::{ClientBuilder, ClientState, ComputationStatus, StoffelClient};
use stoffel_rust_sdk::error::{Error, RetryLimits};
use stoffel_rust_sdk::types::{ClientId, Duration};

#[test]
fn client_builder_defaults() {
    let b = ClientBuilder::new();
    assert!(b.servers.is_empty());
    assert!(b.client_id.is_none());
    assert_eq!(b.timeout, Duration::from_secs(30));
}

#[test]
fn builder_add_servers() {
    let b = ClientBuilder::new().server("127.0.0.1:9000").servers(&["127.0.0.1:9001", "127.0.0.1:9002"]);
    assert_eq!(b.servers.len(), 3);
    assert_eq!(b.servers[0], "127.0.0.1:9000");
    assert_eq!(b.servers[2], "127.0.0.1:9002");
}

#[test]
fn connect_requires_servers() {
    let result = ClientBuilder::new().connect();
    assert!(result.is_err());
    match result {
        Err(Error::Configuration(m)) => assert_eq!(m, "at least one server address is required"),
        _ => panic!("expected a configuration error"),
    }
}

#[test]
fn connect_succeeds_with_server() {
    let client = ClientBuilder::new().server("127.0.0.1:9000").connect().unwrap();
    assert!(client.is_ready());
    assert_eq!(client.state(), ClientState::Ready);
    assert_eq!(client.client_id(), ClientId(0));
}

#[test]
fn connect_keeps_chosen_client_id() {
    let client = StoffelClient::builder().server("127.0.0.1:9000").client_id(ClientId(7)).connect().unwrap();
    assert_eq!(client.client_id(), ClientId(7));
}

#[test]
fn submit_returns_not_implemented() {
    let client = ClientBuilder::new().server("127.0.0.1:9000").connect().unwrap();
    let err = client.submit(&[1, 2, 3]).err().unwrap();
    assert!(err.message().contains("not yet implemented"));
    let err = client.run(&[1]).unwrap_err();
    assert!(err.message().contains("not yet implemented"));
}

#[test]
fn disconnect_succeeds() {
    let client = ClientBuilder::new().server("127.0.0.1:9000").connect().unwrap();
    assert!(client.disconnect().is_ok());
}

#[test]
fn client_state_variants() {
    assert_ne!(ClientState::Disconnected, ClientState::Ready);
    assert_eq!(ClientState::Ready, ClientState::Ready);
}

#[test]
fn computation_status_variants() {
    assert_ne!(ComputationStatus::Pending, ComputationStatus::Completed);
}

#[test]
fn client_builder_retry_limits() {
    let b = ClientBuilder::new();
    assert_eq!(b.retry.max_attempts, 3);
    assert_eq!(b.retry.initial_delay, Duration::from_millis(100));
    assert_eq!(b.retry.max_delay, Duration::from_secs(30));
    let b = b.retry(RetryLimits::none());
    assert_eq!(b.retry.max_attempts, 1);
    assert!(!b.retry.retry_allowed(0));
    let limits = RetryLimits::exponential_backoff(3);
    assert!(limits.retry_allowed(0));
    assert!(limits.retry_allowed(1));
    assert!(!limits.retry_allowed(2));
    assert!(!limits.retry_allowed(u32::MAX));
}

#[test]
fn duration_new_carries_whole_seconds() {
    assert_eq!(Duration::new(1, 2_500_000_000), Duration::new(3, 500_000_000));
    assert_eq!(Duration::new(0, 1_000_000).as_millis(), 1);
}
