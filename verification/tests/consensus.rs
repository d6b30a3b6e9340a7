use stoffel_rust_sdk::consensus::{ClientInfo, ClientListDigest, ConsensusGate, PartyInfo, VerifiedOrdering};
use stoffel_rust_sdk::error::{ConsensusError, Error};
use stoffel_rust_sdk::types::{ClientId, Duration, PartyId, SocketAddress};

#[test]
fn digest_from_bytes_roundtrip() {
    let bytes = [42u8; 32];
    let d = ClientListDigest::from_bytes(bytes);
    assert_eq!(d.as_bytes(), &bytes);
}

#[test]
fn digest_compute_deterministic() {
    let keys = vec![vec![1, 2, 3], vec![4, 5, 6]];
    let d1 = ClientListDigest::compute(&keys);
    let d2 = ClientListDigest::compute(&keys);
    assert_eq!(d1, d2);
}

#[test]
fn digest_compute_order_independent() {
    let keys_a = vec![vec![1, 2, 3], vec![4, 5, 6]];
    let keys_b = vec![vec![4, 5, 6], vec![1, 2, 3]];
    assert_eq!(ClientListDigest::compute(&keys_a), ClientListDigest::compute(&keys_b));
}

#[test]
fn digest_compute_empty() {
    let d = ClientListDigest::compute(&[]);
    assert_eq!(d.as_bytes(), &[0u8; 32]);
}

#[test]
fn digest_of_one_key_is_its_padded_bytes() {
    let d = ClientListDigest::compute(&[vec![1, 2, 3]]);
    let mut expected = [0u8; 32];
    expected[0] = 1;
    expected[1] = 2;
    expected[2] = 3;
    assert_eq!(d.as_bytes(), &expected);
}

#[test]
fn consensus_gate_ready_variants() {
    assert!(ConsensusGate::NotRequired.is_ready());
    assert!(ConsensusGate::Ready.is_ready());
    assert!(!ConsensusGate::Pending {
        connected_parties: 2,
        expected_parties: 5,
        connected_clients: 0,
        expected_clients: 3,
    }
    .is_ready());
    assert!(!ConsensusGate::Failed(ConsensusError::ConsensusTimeout { missing_count: 3 }).is_ready());
}

#[test]
fn await_ready_not_required() {
    ConsensusGate::NotRequired.await_ready().unwrap();
}

#[test]
fn await_ready_ready() {
    ConsensusGate::Ready.await_ready().unwrap();
}

#[test]
fn await_ready_failed() {
    let gate = ConsensusGate::Failed(ConsensusError::ConsensusTimeout { missing_count: 2 });
    match gate.await_ready() {
        Err(Error::Consensus(ConsensusError::ConsensusTimeout { missing_count })) => assert_eq!(missing_count, 2),
        _ => panic!("expected a consensus timeout"),
    }
}

#[test]
fn await_ready_pending_stub() {
    let gate = ConsensusGate::Pending {
        connected_parties: 2,
        expected_parties: 5,
        connected_clients: 1,
        expected_clients: 3,
    };
    let err = gate.await_ready().unwrap_err();
    assert!(err.message().contains("not yet implemented"));
}

#[test]
fn verified_ordering_lookups() {
    let ordering = VerifiedOrdering {
        parties: vec![
            PartyInfo {
                party_id: PartyId::from(0),
                public_key: vec![10, 20, 30],
                address: SocketAddress::v4(127, 0, 0, 1, 9000),
            },
            PartyInfo {
                party_id: PartyId::from(1),
                public_key: vec![40, 50, 60],
                address: SocketAddress::v4(127, 0, 0, 1, 9001),
            },
        ],
        clients: vec![ClientInfo { client_id: ClientId::from(100), public_key: vec![70, 80, 90] }],
        digest: ClientListDigest::compute(&[vec![70, 80, 90]]),
        timestamp: Duration::from_secs(1),
    };

    assert_eq!(ordering.party_index(&[10, 20, 30]), Some(0));
    assert_eq!(ordering.party_index(&[40, 50, 60]), Some(1));
    assert_eq!(ordering.party_index(&[99]), None);

    assert_eq!(ordering.client_index(&[70, 80, 90]), Some(0));
    assert_eq!(ordering.client_index(&[99]), None);
}

#[test]
fn verified_ordering_verify_digest() {
    let keys = vec![vec![1, 2], vec![3, 4]];
    let digest = ClientListDigest::compute(&keys);

    let ordering = VerifiedOrdering {
        parties: vec![],
        clients: vec![],
        digest: digest.clone(),
        timestamp: Duration::from_secs(1),
    };

    assert!(ordering.verify_digest(&digest));
    assert!(!ordering.verify_digest(&ClientListDigest::from_bytes([0xff; 32])));
}
