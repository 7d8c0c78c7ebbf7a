//! Trust-establishment core of a confidential-computing secrets-release
//! service: a catalog of reference measurement values behind a pluggable
//! store interface, and the request/decision logic of a pooled client for a
//! remote attestation-evaluation service.

pub mod client;
pub mod codec;
pub mod error;
pub mod pool;
pub mod reference_value;
pub mod store;

pub use client::{AttestationRequest, RemoteReply, SetPolicyRequest};
pub use codec::{GrpcTee, Tee};
pub use error::Error;
pub use pool::{AcquireStep, GrpcClientPool, GrpcConfig, GrpcManager};
pub use reference_value::ReferenceValue;
pub use store::{MemStore, Store, StoreType};
