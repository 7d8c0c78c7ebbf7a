use attestation_core::client::{
    accept_evaluation, accept_policy_ack, build_attestation_request, build_set_policy_request,
    RemoteReply, COCO_AS_HASH_ALGORITHM,
};
use attestation_core::codec::{GrpcTee, Tee};
use attestation_core::error::Error;
use attestation_core::pool::{AcquireStep, GrpcClientPool, GrpcConfig};

struct StubConnection;

#[test]
fn scenario_policy_set_then_verify_with_echoing_stub() {
    // Pool of size one, against a stub remote that acknowledges the policy
    // and then echoes a fixed token for the evaluation.
    let cfg = GrpcConfig {
        as_addr: Some("http://127.0.0.1:50004".to_string()),
        pool_size: Some(1),
    };
    let mut pool: GrpcClientPool<StubConnection> = GrpcClientPool::new(cfg).unwrap();

    let policy = build_set_policy_request(b"allow_all").unwrap();
    assert_eq!(policy.input, "allow_all");
    assert!(matches!(pool.acquire(), AcquireStep::Dial));
    let conn = StubConnection;
    assert!(accept_policy_ack(RemoteReply::Token(String::new())).is_ok());
    pool.release(conn);

    let req = build_attestation_request(
        Tee::Sample,
        "nonce-123",
        "{\"tee-pubkey\":\"PK1\",\"tee-evidence\":\"RAW\"}",
    )
    .unwrap();
    assert_eq!(req.tee, GrpcTee::Sample);
    assert_eq!(req.evidence, "UkFX");
    assert_eq!(
        req.runtime_data.as_deref(),
        Some("{\"nonce\":\"nonce-123\",\"tee-pubkey\":\"PK1\"}")
    );
    assert_eq!(req.runtime_data_hash_algorithm, COCO_AS_HASH_ALGORITHM);
    assert_eq!(req.init_data_hash_algorithm, "sha384");
    assert_eq!(req.init_data, None);
    assert_eq!(req.policy_ids, vec!["default".to_string()]);
    assert!(matches!(pool.acquire(), AcquireStep::Reuse(_)));
    let token = accept_evaluation(RemoteReply::Token("TOKEN-OK".to_string())).unwrap();
    assert_eq!(token, "TOKEN-OK");
    pool.release(StubConnection);
}

#[test]
fn scenario_malformed_evidence_fails_before_any_connection_is_touched() {
    let r = build_attestation_request(Tee::Tdx, "n", "this is not json");
    assert!(matches!(r, Err(Error::MalformedEvidence)));
    let r = build_attestation_request(Tee::Tdx, "n", "{}");
    assert!(matches!(r, Err(Error::MalformedEvidence)));
    let r = build_attestation_request(
        Tee::Tdx,
        "n",
        "{\"tee-pubkey\":\"PK\",\"tee-evidence\":5}",
    );
    assert!(matches!(r, Err(Error::MalformedEvidence)));
}

#[test]
fn scenario_remote_rejection_reason_is_propagated_verbatim() {
    let e = accept_evaluation(RemoteReply::Rejection("evidence stale".to_string())).unwrap_err();
    assert!(matches!(&e, Error::RemoteRejection(m) if m == "evidence stale"));
    assert!(e.message().contains("evidence stale"));
    assert!(!matches!(&e, Error::Transport(_)));
}

#[test]
fn transport_failure_is_reported_as_transport_not_rejection() {
    let e =
        accept_evaluation(RemoteReply::TransportFailure("connection refused".to_string()))
            .unwrap_err();
    assert!(matches!(&e, Error::Transport(m) if m == "connection refused"));
    assert!(e.message().contains("connection refused"));
}

#[test]
fn policy_rejection_is_propagated_on_set_policy() {
    let e = accept_policy_ack(RemoteReply::Rejection("policy id conflict".to_string()))
        .unwrap_err();
    assert!(matches!(&e, Error::RemoteRejection(m) if m == "policy id conflict"));
}

#[test]
fn policy_bytes_that_are_not_utf8_are_refused() {
    let r = build_set_policy_request(&[0xff, 0xfe, 0x00]);
    assert!(matches!(r, Err(Error::PolicyNotUtf8)));
}

#[test]
fn structured_pubkey_passes_through_canonically() {
    let req = build_attestation_request(
        Tee::Snp,
        "n-1",
        "{\"tee-pubkey\":{\"n\":\"m\",\"kty\":\"RSA\"},\"tee-evidence\":\"E\"}",
    )
    .unwrap();
    assert_eq!(
        req.runtime_data.as_deref(),
        Some("{\"nonce\":\"n-1\",\"tee-pubkey\":{\"kty\":\"RSA\",\"n\":\"m\"}}")
    );
}
