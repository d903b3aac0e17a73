//! A registry of proofs of existence.
//!
//! Given a document's hash, the registry issues a unique sequential
//! identifier, records the hash together with the submission timestamp, and
//! lets the record later be marked verified, exactly once. An aggregate
//! status (total, verified, pending) is derived on demand. The registry
//! never stores the document itself, only the opaque hash bytes the caller
//! supplies.
//!
//! The host environment that persists the records, serializes calls and
//! supplies timestamps is not part of this crate: the registry works on
//! plain values and its behaviour is stated in contracts and proved.

pub mod record;
pub mod registry;

pub use record::{Proof, ProofModel, ProofStatus, Proofbook, RegistryError};
pub use registry::ProofOfExistenceContract;
