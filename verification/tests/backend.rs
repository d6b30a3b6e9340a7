use stoffel_rust_sdk::backend::{
    Curve, FeldmanCommitment, FeldmanShare, MpcBackend, PartyId, RobustShare, ShareHandle, ShareType,
};

#[test]
fn test_mpc_backend_default_is_honeybadger() {
    let backend = MpcBackend::default();
    assert!(matches!(backend, MpcBackend::HoneyBadger));
}

#[test]
fn test_mpc_backend_avss_with_curve() {
    let backend = MpcBackend::Avss { curve: Curve::Bn254 };
    match backend {
        MpcBackend::Avss { curve } => assert_eq!(curve, Curve::Bn254),
        _ => panic!("expected Avss variant"),
    }
}

#[test]
fn test_share_handle_equality() {
    let a = ShareHandle(42);
    let b = ShareHandle(42);
    let c = ShareHandle(99);
    assert_eq!(a, b);
    assert_ne!(a, c);
}

#[test]
fn test_robust_share_construction() {
    let share = RobustShare { value: vec![1, 2, 3], codeword: vec![4, 5, 6] };
    assert_eq!(share.value, vec![1, 2, 3]);
    assert_eq!(share.codeword, vec![4, 5, 6]);
}

#[test]
fn test_feldman_share_verify_stub() {
    let share = FeldmanShare {
        value: vec![10],
        commitment: FeldmanCommitment { points: vec![vec![20], vec![30]] },
        index: 0,
    };
    assert!(share.verify());
}

#[test]
fn test_feldman_commitment_public_key() {
    let commitment = FeldmanCommitment { points: vec![vec![1, 2], vec![3, 4]] };
    assert_eq!(commitment.public_key(), Some(&vec![1, 2]));

    let empty = FeldmanCommitment { points: vec![] };
    assert_eq!(empty.public_key(), None);
}

#[test]
fn test_party_id_conversions() {
    let pid = PartyId::from(5usize);
    assert_eq!(pid.0, 5);
    let back: usize = pid.into();
    assert_eq!(back, 5);
}

#[test]
fn test_curve_default() {
    assert_eq!(Curve::default(), Curve::Bls12_381);
}

#[test]
fn test_share_type_variants() {
    let robust = ShareType::Robust(RobustShare { value: vec![1], codeword: vec![2] });
    assert!(matches!(robust, ShareType::Robust(_)));

    let feldman = ShareType::Feldman(FeldmanShare {
        value: vec![3],
        commitment: FeldmanCommitment { points: vec![vec![4]] },
        index: 0,
    });
    assert!(matches!(feldman, ShareType::Feldman(_)));
}
