use stoffel_rust_sdk::error::{ConsensusError, Error, IoErrorKind, IoFailure, NetworkError, Result, ResultExt};
use stoffel_rust_sdk::types::Duration;

#[test]
fn result_alias_defaults_to_error() {
    let ok: Result<i32> = Ok(42);
    assert_eq!(ok.unwrap(), 42);

    let err: Result<i32> = Err(Error::InvalidInput("bad".into()));
    assert!(err.is_err());
}

#[test]
fn network_error_converts_to_error() {
    let net = NetworkError::Tls("cert expired".into());
    let err: Error = net.into();
    assert!(matches!(err, Error::Network(NetworkError::Tls(_))));
    assert!(err.message().contains("cert expired"));
}

#[test]
fn consensus_error_converts_to_error() {
    let con = ConsensusError::ConsensusTimeout { missing_count: 2 };
    let err: Error = con.into();
    assert!(matches!(err, Error::Consensus(ConsensusError::ConsensusTimeout { .. })));
}

#[test]
fn error_chain_includes_source() {
    let net = NetworkError::BindFailed { addr: "0.0.0.0:1234".into(), source: "gone".into() };
    let err: Error = net.into();
    let chain = err.chain();
    assert!(chain.contains("bind"));
    assert!(chain.contains("gone"));
}

#[test]
fn result_ext_context_on_option() {
    let none: Option<i32> = None;
    let err = none.context("missing value").unwrap_err();
    assert!(err.message().contains("missing value"));
}

#[test]
fn result_ext_context_on_result() {
    let bad: std::result::Result<i32, Error> = Err(Error::InvalidInput("x".into()));
    let err = bad.context("during setup").unwrap_err();
    assert!(err.message().contains("during setup"));
    assert!(err.message().contains("x"));
}

#[test]
fn backward_compat_aliases() {
    let e1 = Error::IoError(IoFailure { kind: IoErrorKind::Other, message: "oops".to_string() });
    match &e1 {
        Error::Io(f) => {
            assert_eq!(f.kind, IoErrorKind::Other);
            assert_eq!(f.message, "oops");
        }
        _ => panic!("expected an I/O error"),
    }
    assert_eq!(e1.message(), "IO error: oops");
    assert_eq!(e1.chain(), "IO error: oops\n  caused by: oops");

    let e2 = Error::RuntimeError("boom".into());
    assert!(matches!(e2, Error::Runtime(_)));

    let e3 = Error::CompilationError("parse fail".into());
    assert!(matches!(e3, Error::Compilation(_)));
}

#[test]
fn timeout_message_uses_duration_debug() {
    let err = Error::Network(NetworkError::ConnectionTimeout {
        server: "s1".to_string(),
        timeout: Duration::from_millis(1500),
    });
    assert!(err.message().contains("1.5s"));
}

#[test]
fn mpc_error_is_a_network_error_with_the_message() {
    let e = Error::MPCError("peer lost".to_string());
    match &e {
        Error::Network(NetworkError::Message(m)) => assert_eq!(m, "peer lost"),
        _ => panic!("expected a network error"),
    }
    assert_eq!(e.message(), "Network error: peer lost");
}
