use stoffel_rust_sdk::coordinator::client::{
    check_job_status, check_status, poll_step, CoordinatorClient, CoordinatorClientBuilder,
    CoordinatorClientConfig, PollStep,
};
use stoffel_rust_sdk::coordinator::offchain::OffChainCoordinator;
use stoffel_rust_sdk::coordinator::onchain::OnChainCoordinator;
use stoffel_rust_sdk::coordinator::types::{ClientInput, JobRequest, JobStatus, JobStatusResponse, JobType};
use stoffel_rust_sdk::coordinator::{CoordinatorEvent, MaskIndex, Round};
use stoffel_rust_sdk::error::Error;
use stoffel_rust_sdk::types::{ComputationId, Duration};

#[test]
fn round_progression() {
    let mut r = Round::Preprocessing;
    let expected = [
        Round::InputMaskReservation,
        Round::CollectingInputs,
        Round::InputsCollectionEnd,
        Round::Execution,
        Round::ExecutionEnd,
        Round::OutputCollection,
    ];
    for exp in &expected {
        r = r.next().expect("should have a next round");
        assert_eq!(r, *exp);
    }
    assert!(r.next().is_none(), "OutputCollection is terminal");
}

#[test]
fn client_rounds() {
    assert!(!Round::Preprocessing.is_client_round());
    assert!(Round::InputMaskReservation.is_client_round());
    assert!(Round::CollectingInputs.is_client_round());
    assert!(!Round::InputsCollectionEnd.is_client_round());
    assert!(!Round::Execution.is_client_round());
    assert!(!Round::ExecutionEnd.is_client_round());
    assert!(Round::OutputCollection.is_client_round());
}

#[test]
fn server_rounds() {
    assert!(Round::Preprocessing.is_server_round());
    assert!(!Round::InputMaskReservation.is_server_round());
    assert!(!Round::CollectingInputs.is_server_round());
    assert!(!Round::InputsCollectionEnd.is_server_round());
    assert!(Round::Execution.is_server_round());
    assert!(!Round::ExecutionEnd.is_server_round());
    assert!(!Round::OutputCollection.is_server_round());
}

#[test]
fn mask_index_equality() {
    assert_eq!(MaskIndex(0), MaskIndex(0));
    assert_ne!(MaskIndex(0), MaskIndex(1));
}

#[test]
fn coordinator_event_debug() {
    let evt = CoordinatorEvent::RoundChanged { from: Round::Preprocessing, to: Round::InputMaskReservation };
    let s = format!("{:?}", evt);
    assert!(s.contains("RoundChanged"));
}

#[test]
fn new_starts_at_preprocessing() {
    let c = OffChainCoordinator::new();
    assert_eq!(c.current_round().unwrap(), Round::Preprocessing);
}

#[test]
fn advance_all_rounds() {
    let mut c = OffChainCoordinator::new();
    let expected = [
        Round::InputMaskReservation,
        Round::CollectingInputs,
        Round::InputsCollectionEnd,
        Round::Execution,
        Round::ExecutionEnd,
        Round::OutputCollection,
    ];
    for exp in &expected {
        let r = c.advance_round().unwrap();
        assert_eq!(r, *exp);
    }
    assert!(c.advance_round().is_err());
    assert_eq!(c.current_round().unwrap(), Round::OutputCollection);
}

#[test]
fn set_round_overrides() {
    let mut c = OffChainCoordinator::new();
    c.set_round(Round::Execution);
    assert_eq!(c.current_round().unwrap(), Round::Execution);
}

#[test]
fn reserve_mask_increments() {
    let mut c = OffChainCoordinator::new();
    assert_eq!(c.reserve_input_mask().unwrap(), MaskIndex(0));
    assert_eq!(c.reserve_input_mask().unwrap(), MaskIndex(1));
    assert_eq!(c.reserve_input_mask().unwrap(), MaskIndex(2));
}

#[test]
fn construction() {
    let coord = OnChainCoordinator::new("0x1234abcd".to_string(), ComputationId(99));
    assert_eq!(coord.contract_address(), "0x1234abcd");
    assert_eq!(coord.computation_id(), ComputationId(99));
}

#[test]
fn current_round_not_implemented() {
    let coord = OnChainCoordinator::new("0x0".to_string(), ComputationId(1));
    let err = coord.current_round().unwrap_err();
    assert!(err.message().contains("not yet implemented"));
}

#[test]
fn await_round_not_implemented() {
    let coord = OnChainCoordinator::new("0x0".to_string(), ComputationId(1));
    let err = coord.await_round(Round::Execution).unwrap_err();
    assert!(err.message().contains("not yet implemented"));
}

#[test]
fn test_job_status_terminal() {
    assert!(JobStatus::Complete.is_terminal());
    assert!(JobStatus::Failed.is_terminal());
    assert!(!JobStatus::Queued.is_terminal());
    assert!(!JobStatus::Executing.is_terminal());
    assert!(JobStatus::Queued.is_in_progress());
}

#[test]
fn test_client_input_secret() {
    let input = ClientInput::secret("client1", 0, &[1, 2, 3]);
    assert!(input.is_secret);
    assert_eq!(input.client_id, "client1");
    assert_eq!(input.index, 0);
    assert_eq!(input.data, "AQID");
}

#[test]
fn test_client_input_public() {
    let input = ClientInput::public("client1", 0, &[1, 2, 3]);
    assert!(!input.is_secret);
    assert_eq!(input.data, "AQID");
}

#[test]
fn test_job_request_builder() {
    let request = JobRequest::builder(JobType::AuthorizeTransfer, "client1")
        .program_hash("0x1234")
        .input(ClientInput::secret("client1", 0, &[10]))
        .idempotency_key("unique-key")
        .build();
    assert_eq!(request.job_type, JobType::AuthorizeTransfer);
    assert_eq!(request.program_hash, "0x1234");
    assert_eq!(request.inputs.len(), 1);
    assert_eq!(request.idempotency_key, "unique-key");
    assert_eq!(request.client_id, "client1");
    assert_eq!(request.key_id, "default-key-v1");
}

#[test]
fn test_job_request_builder_auto_idempotency() {
    let request1 = JobRequest::builder(JobType::AuthorizeTransfer, "client1").build();
    let request2 = JobRequest::builder(JobType::AuthorizeTransfer, "client1").build();
    assert_ne!(request1.idempotency_key, request2.idempotency_key);
    assert_eq!(request1.idempotency_key.len(), 36);
}

#[test]
fn job_request_build_with_uses_given_key_and_time() {
    let request = JobRequest::builder(JobType::WrapMint, "c").build_with("k-1".to_string(), 1_700_000_000);
    assert_eq!(request.idempotency_key, "k-1");
    assert_eq!(request.request_ts, 1_700_000_000);
}

#[test]
fn outputs_bytes_decodes_base64() {
    let mut response = JobStatusResponse {
        job_id: 1,
        status: JobStatus::Complete,
        job_type: JobType::DistributedDecrypt,
        submitted_at: 0,
        completed_at: None,
        outputs: Some("AQID".to_string()),
        error: None,
    };
    assert_eq!(response.outputs_bytes(), Some(vec![1, 2, 3]));
    response.outputs = Some("not base64!".to_string());
    assert_eq!(response.outputs_bytes(), None);
    response.outputs = None;
    assert_eq!(response.outputs_bytes(), None);
}

#[test]
fn test_config_default() {
    let config = CoordinatorClientConfig::default();
    assert_eq!(config.base_url, "http://localhost:8080");
    assert_eq!(config.timeout, Duration::from_secs(30));
    assert_eq!(config.poll_interval, Duration::from_millis(500));
}

#[test]
fn test_config_builder() {
    let config = CoordinatorClientConfig::new("http://example.com:9000")
        .timeout(Duration::from_secs(60))
        .poll_interval(Duration::from_secs(1));
    assert_eq!(config.base_url, "http://example.com:9000");
    assert_eq!(config.timeout, Duration::from_secs(60));
    assert_eq!(config.poll_interval, Duration::from_secs(1));
}

#[test]
fn test_client_builder() {
    let client = CoordinatorClientBuilder::new("http://localhost:8080")
        .timeout(Duration::from_secs(10))
        .poll_interval(Duration::from_millis(100))
        .build()
        .unwrap();
    assert_eq!(client.base_url(), "http://localhost:8080");
}

#[test]
fn test_client_with_url() {
    let client = CoordinatorClient::with_url("http://localhost:8080").unwrap();
    assert_eq!(client.base_url(), "http://localhost:8080");
    assert_eq!(client.endpoint("/mpc/jobs"), "http://localhost:8080/mpc/jobs");
    assert_eq!(
        client.job_url(0x67e5_5044_10b1_426f_9247_bb68_0e5f_e0c8),
        "http://localhost:8080/mpc/jobs/67e55044-10b1-426f-9247-bb680e5fe0c8"
    );
}

#[test]
fn status_checks() {
    assert!(check_status(200, "200 OK", "", "Failed to get status").is_ok());
    match check_status(500, "500 Internal Server Error", "boom", "Failed to get status") {
        Err(Error::Runtime(m)) => assert_eq!(m, "Failed to get status with status 500 Internal Server Error: boom"),
        _ => panic!("expected a runtime error"),
    }
    match check_job_status(404, "404 Not Found", "", 1) {
        Err(Error::Runtime(m)) => assert_eq!(m, "Job not found: 00000000-0000-0000-0000-000000000001"),
        _ => panic!("expected a runtime error"),
    }
}

#[test]
fn poll_steps() {
    let t = Duration::from_secs(10);
    assert!(matches!(poll_step(JobStatus::Complete, Duration::from_secs(99), t, 1), PollStep::Finished));
    assert!(matches!(poll_step(JobStatus::Executing, Duration::from_secs(1), t, 1), PollStep::Wait));
    match poll_step(JobStatus::Executing, Duration::from_secs(10), t, 1) {
        PollStep::TimedOut(Error::Runtime(m)) => assert_eq!(
            m,
            "Timeout waiting for job 00000000-0000-0000-0000-000000000001 to complete (status: Executing)"
        ),
        _ => panic!("expected a timeout"),
    }
}

#[test]
fn successive_reservations_are_consecutive() {
    let mut c = OffChainCoordinator::new();
    let got: Vec<MaskIndex> = (0..100).map(|_| c.reserve_input_mask().unwrap()).collect();
    for (i, m) in got.iter().enumerate() {
        assert_eq!(*m, MaskIndex(i as u64));
    }
}
