use stoffel_rust_sdk::error::Error;
use stoffel_rust_sdk::mpcaas::client::{
    finish_handshake, generated_client_id, record_server_info, ClientState, ClientStep, ComputationProgress,
    ServerEvent, StoffelClientBuilder,
};
use stoffel_rust_sdk::mpcaas::protocol::{frame_payload, unframe_payload, ErrorCode, MPCaaSMessage};
use stoffel_rust_sdk::mpcaas::server::{
    connection_counts, initial_delay, mpc_port, peer_mpc_port, preprocessing_wait, processor_step, reader_step,
    retry_backoff, should_dial, ClientSession, ProcessorAction, QueueOutcome, ReaderAction, ReceiveOutcome,
    ServerState, SessionAction, SessionEvent, SessionPhase, StoffelServerBuilder,
};
use stoffel_rust_sdk::text::str_contains;
use stoffel_rust_sdk::program::Program;
use stoffel_rust_sdk::types::{Duration, SocketAddress};

#[test]
fn test_builder_defaults() {
    let builder = StoffelClientBuilder::new();
    assert!(builder.servers.is_empty());
    assert!(builder.client_id.is_none());
    assert_eq!(builder.connection_timeout, Duration::from_secs(10));
    assert_eq!(builder.computation_timeout, Duration::from_secs(60));
}

#[test]
fn test_builder_with_servers() {
    let builder = StoffelClientBuilder::new().with_servers(&["localhost:19200", "localhost:19201"]);
    assert_eq!(builder.servers.len(), 2);
    assert_eq!(builder.servers[0], "localhost:19200");
    assert_eq!(builder.servers[1], "localhost:19201");
}

#[test]
fn test_builder_add_server() {
    let builder = StoffelClientBuilder::new().add_server("localhost:19200").add_server("localhost:19201");
    assert_eq!(builder.servers.len(), 2);
}

#[test]
fn test_builder_client_id() {
    let builder = StoffelClientBuilder::new().client_id(12345);
    assert_eq!(builder.client_id, Some(12345));
    assert_eq!(builder.resolved_client_id(), 12345);
}

#[test]
fn test_client_state_display() {
    assert_eq!(ClientState::Connected.to_text(), "Connected");
    assert_eq!(ClientState::Submitting.to_text(), "Submitting");
    assert_eq!(ClientState::Computing.to_text(), "Computing");
    assert_eq!(ClientState::Disconnected.to_text(), "Disconnected");
}

#[test]
fn test_address_parsing() {
    let builder = StoffelClientBuilder::new().with_servers(&["127.0.0.1:19200", "127.0.0.1"]);
    let addrs = builder.server_addresses().unwrap();
    assert_eq!(addrs[0], "127.0.0.1:19200");
    assert_eq!(addrs[1], "127.0.0.1:19200");
}

#[test]
fn no_servers_is_invalid_input() {
    match StoffelClientBuilder::new().server_addresses() {
        Err(Error::InvalidInput(m)) => assert_eq!(m, "No server addresses provided"),
        _ => panic!("expected invalid input"),
    }
}

#[test]
fn generated_client_ids() {
    assert_eq!(generated_client_id(None), 1000);
    assert_eq!(generated_client_id(Some(123_456_789)), 457_789);
    let id = StoffelClientBuilder::new().resolved_client_id();
    assert!((1000..1_001_000).contains(&id));
}

#[test]
fn handshake_agreement() {
    let agreed = record_server_info(None, 4, 1, 0).unwrap();
    assert_eq!(agreed, (4, 1));
    assert_eq!(record_server_info(Some(agreed), 4, 1, 1).unwrap(), (4, 1));
    match record_server_info(Some(agreed), 5, 1, 2) {
        Err(Error::Configuration(m)) => {
            assert_eq!(m, "Inconsistent server configuration: expected n=4, t=1, but server 2 has n=5, t=1")
        }
        _ => panic!("expected a configuration error"),
    }
    assert!(finish_handshake(None).is_err());
    assert_eq!(finish_handshake(Some((4, 1))).unwrap(), (4, 1));
}

#[test]
fn progress_counts_each_server_once() {
    let mut p = ComputationProgress::new(1);
    assert_eq!(p.required_shares(), 3);
    assert!(matches!(p.on_event(ServerEvent::MaskShares { sender: 0 }), ClientStep::Continue));
    assert!(matches!(p.on_event(ServerEvent::MaskShares { sender: 0 }), ClientStep::Continue));
    assert!(matches!(p.on_event(ServerEvent::MaskShares { sender: 1 }), ClientStep::Continue));
    assert!(!p.masked_input_due());
    p.on_event(ServerEvent::MaskShares { sender: 2 });
    assert!(p.masked_input_due());
    p.mark_masked_input_sent();
    assert!(!p.masked_input_due());
    p.on_event(ServerEvent::MaskShares { sender: 3 });
    assert!(!p.masked_input_due());
}

#[test]
fn completion_needs_enough_output_shares() {
    let mut p = ComputationProgress::new(1);
    p.on_event(ServerEvent::OutputShares { sender: 0 });
    assert!(matches!(p.on_event(ServerEvent::ComputationComplete { session_id: 1 }), ClientStep::ReturnInputs));
    p.on_event(ServerEvent::OutputShares { sender: 1 });
    p.on_event(ServerEvent::OutputShares { sender: 2 });
    assert!(matches!(
        p.on_event(ServerEvent::ComputationComplete { session_id: 1 }),
        ClientStep::ReconstructOutput
    ));
}

#[test]
fn server_error_ends_the_computation() {
    let mut p = ComputationProgress::new(1);
    match p.on_event(ServerEvent::ServerError { server: 2, code: ErrorCode::NotReady, message: "later".to_string() }) {
        ClientStep::Fail(Error::Computation(m)) => assert_eq!(m, "Server 2 error: NotReady - later"),
        _ => panic!("expected a failure"),
    }
}

#[test]
fn computation_timeout_message() {
    let mut p = ComputationProgress::new(1);
    p.on_event(ServerEvent::MaskShares { sender: 0 });
    assert!(p.check_timeout(&Duration::from_secs(60), &Duration::from_secs(60)).is_none());
    match p.check_timeout(&Duration::from_secs(61), &Duration::from_secs(60)) {
        Some(Error::Runtime(m)) => assert_eq!(
            m,
            "MPC computation timed out after 60s (received 1/3 MaskShares, 0/3 OutputShares)"
        ),
        _ => panic!("expected a timeout"),
    }
}

#[test]
fn framed_payload_roundtrip() {
    let payload = vec![1u8, 0, 0, 0, 100, 0, 0, 0, 0, 0, 0, 0, 2, 0, 0, 0, 0, 0, 0, 0];
    let data = frame_payload(&payload);
    let (parsed, consumed) = unframe_payload(&data).unwrap();
    assert_eq!(parsed, payload);
    assert_eq!(consumed, data.len());
}

#[test]
fn test_invalid_magic() {
    let data = vec![0x00, 0x00, 0x00, 0x00, 0x01, 0x00, 0x00, 0x00, 0x00];
    assert!(unframe_payload(&data).is_err());
}

#[test]
fn test_message_too_short() {
    let data = vec![0x4D, 0x50, 0x43, 0x53];
    assert!(unframe_payload(&data).is_err());
}

#[test]
fn frame_layout() {
    let data = frame_payload(&[9, 8]);
    assert_eq!(data, vec![0x4D, 0x50, 0x43, 0x53, 1, 0, 0, 0, 2, 9, 8]);
}

#[test]
fn test_server_state_display() {
    assert_eq!(ServerState::Ready.to_text(), "Ready");
    assert_eq!(ServerState::Computing.to_text(), "Computing");
}

#[test]
fn test_server_state_transitions() {
    let states = vec![
        ServerState::Initialized,
        ServerState::Starting,
        ServerState::ConnectingPeers,
        ServerState::Preprocessing,
        ServerState::Ready,
        ServerState::Computing,
        ServerState::ShuttingDown,
    ];
    for state in &states {
        assert_eq!(*state, *state);
    }
    assert_ne!(ServerState::Preprocessing, ServerState::Ready);
}

#[test]
fn test_spawn_message_processors_expected_count() {
    let (dial, accept) = connection_counts(0, 5);
    let n_connections = dial + accept + 1;
    let expected_handles = n_connections + 1;
    assert_eq!(expected_handles, 6);
}

#[test]
fn test_server_builder_new() {
    let builder = StoffelServerBuilder::new(0);
    assert_eq!(builder.party_id, 0);
    assert!(builder.bind_address.is_none());
    assert!(builder.peers.is_empty());
    assert!(builder.program.is_none());
}

#[test]
fn test_server_builder_instance_id() {
    let builder = StoffelServerBuilder::new(0).with_instance_id(12345);
    assert_eq!(builder.instance_id, Some(12345));
}

#[test]
fn test_server_builder_preprocessing_params() {
    let builder = StoffelServerBuilder::new(0).with_preprocessing(50, 100);
    assert_eq!(builder.n_triples, 50);
    assert_eq!(builder.n_random_shares, 100);
}

#[test]
fn test_server_builder_default_preprocessing() {
    let builder = StoffelServerBuilder::new(0);
    assert_eq!(builder.n_triples, 10);
    assert_eq!(builder.n_random_shares, 20);
}

#[test]
fn test_server_builder_bind_address() {
    let builder = StoffelServerBuilder::new(0).bind(Some(SocketAddress::v4(127, 0, 0, 1, 19200)));
    assert!(builder.bind_address.is_some());
    let addr = builder.bind_address.unwrap();
    assert_eq!(addr.port(), 19200);
}

#[test]
fn test_server_builder_invalid_bind_address() {
    let builder = StoffelServerBuilder::new(0).bind(None);
    assert!(builder.bind_address.is_none());
}

#[test]
fn test_server_builder_peer_addresses() {
    let builder = StoffelServerBuilder::new(0).with_peers(&[
        (1, Some(SocketAddress::v4(127, 0, 0, 1, 19201))),
        (2, Some(SocketAddress::v4(127, 0, 0, 1, 19202))),
        (3, Some(SocketAddress::v4(127, 0, 0, 1, 19203))),
    ]);
    assert_eq!(builder.peers.len(), 3);
    assert_eq!(builder.peers[0].0, 1);
    assert_eq!(builder.peers[1].0, 2);
    assert_eq!(builder.peers[2].0, 3);
}

#[test]
fn test_server_builder_invalid_peer_filtered() {
    let builder = StoffelServerBuilder::new(0).with_peers(&[
        (1, Some(SocketAddress::v4(127, 0, 0, 1, 19201))),
        (2, None),
        (3, Some(SocketAddress::v4(127, 0, 0, 1, 19203))),
    ]);
    assert_eq!(builder.peers.len(), 2);
}

#[test]
fn test_server_builder_preprocessing_start_time() {
    let start_epoch = 1704067200_u64;
    let builder = StoffelServerBuilder::new(0).with_preprocessing_start_time(start_epoch);
    assert_eq!(builder.preprocessing_start_epoch, Some(start_epoch));
}

#[test]
fn test_server_builder_chaining() {
    let builder = StoffelServerBuilder::new(0)
        .bind(Some(SocketAddress::v4(127, 0, 0, 1, 19200)))
        .with_peers(&[(1, Some(SocketAddress::v4(127, 0, 0, 1, 19201)))])
        .with_preprocessing(5, 10)
        .with_instance_id(999)
        .with_preprocessing_start_time(1704067200);
    assert!(builder.bind_address.is_some());
    assert_eq!(builder.peers.len(), 1);
    assert_eq!(builder.n_triples, 5);
    assert_eq!(builder.n_random_shares, 10);
    assert_eq!(builder.instance_id, Some(999));
    assert_eq!(builder.preprocessing_start_epoch, Some(1704067200));
}

#[test]
fn test_server_builder_signaling_server() {
    let builder = StoffelServerBuilder::new(0).with_signaling_server("signal.example.com:9000");
    assert_eq!(builder.signaling_server, Some("signal.example.com:9000".to_string()));
}

#[test]
fn test_server_builder_stun_server() {
    let builder = StoffelServerBuilder::new(0).with_stun_server("stun.example.com:3478");
    assert_eq!(builder.stun_server, Some("stun.example.com:3478".to_string()));
}

#[test]
fn test_server_builder_different_party_ids() {
    for party_id in 0..5 {
        let builder = StoffelServerBuilder::new(party_id);
        assert_eq!(builder.party_id, party_id);
    }
}

#[test]
fn server_build_errors_in_order() {
    match StoffelServerBuilder::new(0).build_at(Some(5)) {
        Err(Error::Configuration(m)) => assert_eq!(m, "No bind address specified"),
        _ => panic!("expected a configuration error"),
    }
    let b = StoffelServerBuilder::new(0).bind(Some(SocketAddress::v4(127, 0, 0, 1, 19200)));
    match b.build_at(Some(5)) {
        Err(Error::Configuration(m)) => assert_eq!(m, "Either peers or signaling server must be specified"),
        _ => panic!("expected a configuration error"),
    }
    let b = StoffelServerBuilder::new(0)
        .bind(Some(SocketAddress::v4(127, 0, 0, 1, 19200)))
        .with_peers(&[(1, Some(SocketAddress::v4(127, 0, 0, 1, 19201)))]);
    match b.build_at(Some(5)) {
        Err(Error::Configuration(m)) => assert_eq!(m, "No program specified"),
        _ => panic!("expected a configuration error"),
    }
}

#[test]
fn server_build_settings() {
    let s = StoffelServerBuilder::new(0)
        .bind(Some(SocketAddress::v4(127, 0, 0, 1, 19200)))
        .with_peers(&[
            (1, Some(SocketAddress::v4(127, 0, 0, 1, 19201))),
            (2, Some(SocketAddress::v4(127, 0, 0, 1, 19202))),
        ])
        .with_program(Program::new(vec![1, 2]))
        .build_at(Some(77))
        .unwrap();
    assert_eq!(s.n_parties, 3);
    assert_eq!(s.threshold, 1);
    assert_eq!(s.instance_id, 77);
    match s.server_info() {
        MPCaaSMessage::ServerInfo { n_parties, threshold, instance_id, party_id } => {
            assert_eq!((n_parties, threshold, instance_id, party_id), (3, 1, 77, 0));
        }
        _ => panic!("expected ServerInfo"),
    }
}

#[test]
fn peer_schedule() {
    assert!(should_dial(0, 1));
    assert!(!should_dial(1, 0));
    assert_eq!(connection_counts(1, 4), (2, 1));
    assert_eq!(mpc_port(2), 20202);
    assert_eq!(peer_mpc_port(19201), 20201);
    assert_eq!(initial_delay(2), Duration::from_millis(3400));
    assert_eq!(retry_backoff(1), Duration::from_millis(400));
    assert_eq!(retry_backoff(4), Duration::from_millis(3200));
    assert_eq!(preprocessing_wait(Some(100), 40), Duration::from_secs(60));
    assert_eq!(preprocessing_wait(Some(100), 140), Duration::from_secs(0));
    assert_eq!(preprocessing_wait(None, 140), Duration::from_millis(5000));
}

fn info() -> MPCaaSMessage {
    MPCaaSMessage::ServerInfo { n_parties: 4, threshold: 1, instance_id: 9, party_id: 0 }
}

#[test]
fn client_session_happy_path() {
    let mut s = ClientSession::new();
    assert!(matches!(s.step(info(), SessionEvent::Connected), SessionAction::Send(MPCaaSMessage::ServerInfo { .. })));
    let a = s.step(info(), SessionEvent::Received(MPCaaSMessage::ClientReady { client_id: 7, num_inputs: 2 }));
    assert!(matches!(a, SessionAction::RegisterClient { client_id: 7, num_inputs: 2 }));
    let a = s.step(
        info(),
        SessionEvent::PreprocessingStatus { complete: false, engine_ready: false, waited: Duration::from_secs(1) },
    );
    assert!(matches!(a, SessionAction::Wait));
    let a = s.step(
        info(),
        SessionEvent::PreprocessingStatus { complete: true, engine_ready: true, waited: Duration::from_secs(2) },
    );
    assert!(matches!(a, SessionAction::SendMaskShares { client_id: 7, count: 2 }));
    let a = s.step(info(), SessionEvent::Received(MPCaaSMessage::HoneyBadger(vec![5])));
    assert!(matches!(a, SessionAction::ProcessMaskedInput(_)));
    let a = s.step(info(), SessionEvent::Executed { session_id: 11 });
    assert!(matches!(a, SessionAction::Send(MPCaaSMessage::ComputationComplete { session_id: 11 })));
    assert_eq!(s.phase, SessionPhase::Done);
}

#[test]
fn client_session_preprocessing_timeout() {
    let mut s = ClientSession::new();
    s.step(info(), SessionEvent::Connected);
    s.step(info(), SessionEvent::Received(MPCaaSMessage::ClientReady { client_id: 7, num_inputs: 2 }));
    match s.step(
        info(),
        SessionEvent::PreprocessingStatus { complete: false, engine_ready: false, waited: Duration::from_secs(31) },
    ) {
        SessionAction::Fail(Error::Runtime(m)) => {
            assert_eq!(m, "Server preprocessing timeout after 30s - MPC engine not ready")
        }
        _ => panic!("expected a failure"),
    }
}

#[test]
fn client_session_rejects_other_first_message() {
    let mut s = ClientSession::new();
    s.step(info(), SessionEvent::Connected);
    assert!(matches!(s.step(info(), SessionEvent::Received(MPCaaSMessage::Ping)), SessionAction::Close));
    assert_eq!(s.phase, SessionPhase::Done);
}

#[test]
fn substring_search() {
    assert!(str_contains("connection closed by peer", "closed"));
    assert!(str_contains("abc", ""));
    assert!(str_contains("abc", "abc"));
    assert!(!str_contains("ab", "abc"));
    assert!(!str_contains("Connection reset", "closed"));
    assert!(str_contains("aab", "ab"));
}

#[test]
fn peer_reader_decisions() {
    assert!(matches!(reader_step(true, ReceiveOutcome::Received(vec![1])), ReaderAction::Stop));
    match reader_step(false, ReceiveOutcome::Received(vec![1, 2, 3])) {
        ReaderAction::Forward(m) => assert_eq!(m, vec![1, 2, 3]),
        _ => panic!("message not forwarded"),
    }
    assert!(matches!(
        reader_step(false, ReceiveOutcome::Failed("stream Closed".to_string())),
        ReaderAction::Stop
    ));
    assert!(matches!(
        reader_step(false, ReceiveOutcome::Failed("connection closed".to_string())),
        ReaderAction::Stop
    ));
    assert!(matches!(
        reader_step(false, ReceiveOutcome::Failed("decode error".to_string())),
        ReaderAction::KeepPolling
    ));
    assert!(matches!(reader_step(false, ReceiveOutcome::TimedOut), ReaderAction::KeepPolling));
}

#[test]
fn message_processor_decisions() {
    assert!(matches!(processor_step(true, QueueOutcome::Item(1, vec![9])), ProcessorAction::Stop));
    match processor_step(false, QueueOutcome::Item(2, vec![9, 8])) {
        ProcessorAction::Process(peer, m) => {
            assert_eq!(peer, 2);
            assert_eq!(m, vec![9, 8]);
        }
        _ => panic!("message not processed"),
    }
    assert!(matches!(processor_step(false, QueueOutcome::Closed), ProcessorAction::Stop));
    assert!(matches!(processor_step(false, QueueOutcome::TimedOut), ProcessorAction::KeepPolling));
}

#[test]
fn parsed_server_addresses_reports_first_bad_address() {
    let builder = StoffelClientBuilder::new().with_servers(&["localhost:19200", "bad", "also bad"]);
    let parsed = vec![Some(SocketAddress::v4(127, 0, 0, 1, 19200)), None, None];
    match builder.parsed_server_addresses(&parsed) {
        Err(Error::InvalidInput(m)) => assert_eq!(m, "Invalid server address 'bad': invalid socket address syntax"),
        other => panic!("unexpected {:?}", other.err()),
    }
    let good = StoffelClientBuilder::new().with_servers(&["127.0.0.1:1", "127.0.0.1:2"]);
    let addrs = good
        .parsed_server_addresses(&[Some(SocketAddress::v4(127, 0, 0, 1, 1)), Some(SocketAddress::v4(127, 0, 0, 1, 2))])
        .unwrap();
    assert_eq!(addrs, vec![SocketAddress::v4(127, 0, 0, 1, 1), SocketAddress::v4(127, 0, 0, 1, 2)]);
}
