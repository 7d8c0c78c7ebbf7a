//! The attestation client's decision logic: parse the caller's evidence
//! envelope, build the exact wire requests of the remote evaluation
//! protocol, and interpret the remote answers. The transport that carries a
//! request and brings an answer back lives with the embedder; every
//! decision about what is sent and what a caller is told stands here.

use vstd::prelude::*;

use crate::codec::{
    b64_of, b64url_encode, grpc_tee_of, runtime_data_json, runtime_data_spec, to_grpc_tee,
    GrpcTee, Tee, B64_MAX_INPUT,
};
use crate::error::Error;

verus! {

/// The hash-algorithm identifier sent alongside both the runtime-data and
/// the init-data field of every evaluation request.
pub const COCO_AS_HASH_ALGORITHM: &'static str = "sha384";

/// What parsing an evidence envelope yields: `None` when the text is not a
/// JSON object holding a `tee-pubkey` member and a string `tee-evidence`
/// member; otherwise the canonical JSON text of the public key and the
/// bytes of the evidence string.
pub uninterp spec fn envelope_of(s: Seq<char>) -> Option<(Seq<char>, Seq<u8>)>;

/// An evidence envelope, request-scoped: the caller-bound ephemeral public
/// key (opaque to this core, kept as its canonical JSON text) and the raw
/// hardware-signed evidence blob.
pub struct EvidenceEnvelope {
    pub tee_pubkey: String,
    pub tee_evidence: Vec<u8>,
}

/// Relies on serde_json's `from_str` for `Value` and on the `Value`
/// accessors `get`, `as_str` and `to_string`: whether the envelope text
/// parses and what its two members hold depend on the text alone, and
/// `to_string` serializes the public key canonically (object keys in a
/// fixed order).
#[verifier::external_body]
fn parse_envelope(s: &str) -> (r: Result<EvidenceEnvelope, Error>)
    ensures
        r is Ok <==> envelope_of(s@) is Some,
        r matches Ok(env) ==> Some((env.tee_pubkey@, env.tee_evidence@)) == envelope_of(s@),
        r matches Err(e) ==> e == Error::MalformedEvidence,
{
    let v: serde_json::Value = match serde_json::from_str(s) {
        Ok(v) => v,
        Err(_) => return Err(Error::MalformedEvidence),
    };
    match (v.get("tee-pubkey"), v.get("tee-evidence")) {
        (Some(pk), Some(ev)) => match ev.as_str() {
            Some(t) => Ok(EvidenceEnvelope {
                tee_pubkey: pk.to_string(),
                tee_evidence: t.as_bytes().to_vec(),
            }),
            None => Err(Error::MalformedEvidence),
        },
        _ => Err(Error::MalformedEvidence),
    }
}

/// What `String::from_utf8` yields on the given bytes: `None` when they are
/// not valid UTF-8, otherwise the decoded text.
pub uninterp spec fn utf8_of(b: Seq<u8>) -> Option<Seq<char>>;

/// Relies on `String::from_utf8`: whether bytes decode as UTF-8, and to
/// what text, depend on the bytes alone.
#[verifier::external_body]
fn utf8_to_string(b: &[u8]) -> (r: Result<String, Error>)
    ensures
        r is Ok <==> utf8_of(b@) is Some,
        r matches Ok(s) ==> Some(s@) == utf8_of(b@),
        r matches Err(e) ==> e == Error::PolicyNotUtf8,
{
    match String::from_utf8(b.to_vec()) {
        Ok(s) => Ok(s),
        Err(_) => Err(Error::PolicyNotUtf8),
    }
}

/// The wire request of the remote `SetPolicy` operation.
pub struct SetPolicyRequest {
    pub input: String,
}

/// The wire request of the remote `Evaluate` operation. The exact binary
/// framing belongs to the remote protocol; this type carries its fields.
pub struct AttestationRequest {
    pub tee: GrpcTee,
    pub evidence: String,
    pub runtime_data: Option<String>,
    pub runtime_data_hash_algorithm: String,
    pub init_data: Option<String>,
    pub init_data_hash_algorithm: String,
    pub policy_ids: Vec<String>,
}

/// Protocol invariant: the hash-algorithm identifier sent for runtime data
/// and the one sent for init data must always match; sending two different
/// algorithms is a protocol violation.
pub open spec fn hash_algs_consistent(req: AttestationRequest) -> bool {
    req.runtime_data_hash_algorithm@ == req.init_data_hash_algorithm@
}

/// Whether `req` is exactly the evaluation request this core sends for the
/// given TEE kind, nonce, public-key text and evidence bytes: the mapped
/// wire kind, the canonically encoded evidence, the runtime data binding
/// the caller's key and nonce, the fixed hash algorithm on both data
/// fields, empty init data, and the single default policy identifier.
pub open spec fn is_evaluation_request(
    req: AttestationRequest,
    tee: Tee,
    nonce: Seq<char>,
    pubkey: Seq<char>,
    evidence: Seq<u8>,
) -> bool {
    &&& req.tee == grpc_tee_of(tee)
    &&& req.evidence@ == b64_of(evidence)
    &&& (req.runtime_data matches Some(rd) && rd@ == runtime_data_spec(pubkey, nonce))
    &&& req.runtime_data_hash_algorithm@ == COCO_AS_HASH_ALGORITHM@
    &&& req.init_data is None
    &&& req.init_data_hash_algorithm@ == COCO_AS_HASH_ALGORITHM@
    &&& req.policy_ids@.len() == 1 && req.policy_ids@[0]@ == "default"@
}

/// Decode a policy payload and wrap it in the remote `SetPolicy` request.
/// Bytes that are not valid UTF-8 text are rejected before anything is
/// sent.
pub fn build_set_policy_request(input: &[u8]) -> (r: Result<SetPolicyRequest, Error>)
    ensures
        r is Ok <==> utf8_of(input@) is Some,
        r matches Ok(req) ==> Some(req.input@) == utf8_of(input@),
        r matches Err(e) ==> e == Error::PolicyNotUtf8,
{
    match utf8_to_string(input) {
        Ok(s) => Ok(SetPolicyRequest { input: s }),
        Err(e) => Err(e),
    }
}

/// Build the one evaluation request of a `verify` call: parse the evidence
/// envelope (a malformed envelope is rejected here, before any connection
/// is touched), bind the caller's public key and nonce into fresh runtime
/// data, and encode the evidence canonically. The length guard keeps the
/// evidence inside what the transport encoding can size.
pub fn build_attestation_request(tee: Tee, nonce: &str, attestation: &str) -> (r: Result<
    AttestationRequest,
    Error,
>)
    ensures
        r is Ok <==> (envelope_of(attestation@) matches Some(env) && env.1.len()
            <= B64_MAX_INPUT),
        r matches Ok(req) ==> (envelope_of(attestation@) matches Some(env)
            && is_evaluation_request(req, tee, nonce@, env.0, env.1) && hash_algs_consistent(
            req,
        )),
        r matches Err(e) ==> e == Error::MalformedEvidence,
{
    let env = match parse_envelope(attestation) {
        Ok(e) => e,
        Err(e) => return Err(e),
    };
    if env.tee_evidence.len() > B64_MAX_INPUT {
        return Err(Error::MalformedEvidence);
    }
    let evidence = b64url_encode(env.tee_evidence.as_slice());
    let runtime_data = runtime_data_json(env.tee_pubkey.as_str(), nonce);
    let mut policy_ids: Vec<String> = Vec::new();
    policy_ids.push(String::from_str("default"));
    Ok(
        AttestationRequest {
            tee: to_grpc_tee(tee),
            evidence,
            runtime_data: Some(runtime_data),
            runtime_data_hash_algorithm: String::from_str(COCO_AS_HASH_ALGORITHM),
            init_data: None,
            init_data_hash_algorithm: String::from_str(COCO_AS_HASH_ALGORITHM),
            policy_ids,
        },
    )
}

/// One remote answer, as the transport hands it back: the service's signed
/// token, the service's explicit rejection with its reason, or a failure of
/// the transport itself.
pub enum RemoteReply {
    Token(String),
    Rejection(String),
    TransportFailure(String),
}

/// Interpret the remote answer to an `Evaluate` call. The signed token is
/// returned to the caller verbatim; an explicit rejection is the
/// authoritative verdict and is surfaced verbatim, never masked as a
/// transport error; a transport failure is reported as such. Nothing is
/// retried.
pub fn accept_evaluation(reply: RemoteReply) -> (r: Result<String, Error>)
    ensures
        reply matches RemoteReply::Token(t) ==> (r matches Ok(tok) && tok == t),
        reply matches RemoteReply::Rejection(m) ==> (r matches Err(e) && e
            == Error::RemoteRejection(m)),
        reply matches RemoteReply::TransportFailure(m) ==> (r matches Err(e) && e
            == Error::Transport(m)),
{
    match reply {
        RemoteReply::Token(t) => Ok(t),
        RemoteReply::Rejection(m) => Err(Error::RemoteRejection(m)),
        RemoteReply::TransportFailure(m) => Err(Error::Transport(m)),
    }
}

/// Interpret the remote answer to a `SetPolicy` call: any acknowledgement
/// is success; a rejection (a malformed policy, a conflicting identifier)
/// is surfaced verbatim, not retried.
pub fn accept_policy_ack(reply: RemoteReply) -> (r: Result<(), Error>)
    ensures
        reply is Token ==> r is Ok,
        reply matches RemoteReply::Rejection(m) ==> (r matches Err(e) && e
            == Error::RemoteRejection(m)),
        reply matches RemoteReply::TransportFailure(m) ==> (r matches Err(e) && e
            == Error::Transport(m)),
{
    match reply {
        RemoteReply::Token(_) => Ok(()),
        RemoteReply::Rejection(m) => Err(Error::RemoteRejection(m)),
        RemoteReply::TransportFailure(m) => Err(Error::Transport(m)),
    }
}

} // verus!
