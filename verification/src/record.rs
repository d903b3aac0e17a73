//! The data carried by the registry: one record per submitted document
//! hash, the key shape the host store files it under, the derived aggregate
//! status, and the errors a call can end in.

use vstd::prelude::*;

verus! {

/// Width in bytes of the all-zero hash carried by the sentinel record.
pub const SENTINEL_HASH_LEN: usize = 32;

/// One durable record: a document hash registered under a sequential
/// identifier at the timestamp of its submission, together with its
/// verification flag.
#[derive(Clone, Debug)]
pub struct Proof {
    /// Identifier assigned at creation, unique, starting at 1. The sentinel
    /// record returned for an identifier that was never issued carries 0.
    pub proof_id: u64,
    /// The hash bytes as the caller supplied them; opaque to the registry.
    pub document_hash: Vec<u8>,
    /// Timestamp taken from the host's clock when the record was created.
    pub timestamp: u64,
    /// Whether the record has been verified; set to true at most once.
    pub verified: bool,
}

/// Mathematical model of a [`Proof`]: the same fields, with the hash as a
/// sequence of bytes.
pub ghost struct ProofModel {
    pub proof_id: u64,
    pub document_hash: Seq<u8>,
    pub timestamp: u64,
    pub verified: bool,
}

impl View for Proof {
    type V = ProofModel;

    open spec fn view(&self) -> ProofModel {
        ProofModel {
            proof_id: self.proof_id,
            document_hash: self.document_hash@,
            timestamp: self.timestamp,
            verified: self.verified,
        }
    }
}

/// The record a lookup hands back for an identifier that was never issued:
/// identifier zero, an all-zero hash of the expected width, timestamp zero,
/// unverified. Callers tell "not found" from "found" by `proof_id == 0`
/// alone.
pub open spec fn sentinel_model() -> ProofModel {
    ProofModel {
        proof_id: 0,
        document_hash: Seq::new(SENTINEL_HASH_LEN as nat, |i: int| 0u8),
        timestamp: 0,
        verified: false,
    }
}

/// The model of a freshly created record: not yet verified.
pub open spec fn new_record_model(
    proof_id: u64,
    document_hash: Seq<u8>,
    timestamp: u64,
) -> ProofModel {
    ProofModel { proof_id, document_hash, timestamp, verified: false }
}

/// The same record with its verification flag set.
pub open spec fn verified_model(m: ProofModel) -> ProofModel {
    ProofModel { verified: true, ..m }
}

/// Shape of the keys under which the host's key-value store files the
/// records: one key per issued identifier. The counter lives under a key of
/// its own, outside this enum.
#[derive(Clone, Copy, Debug, PartialEq, Eq, Structural)]
pub enum Proofbook {
    Proof(u64),
}

/// Aggregate status of the registry, derived on demand and never stored.
#[derive(Clone, Copy, Debug, PartialEq, Eq, Structural)]
pub struct ProofStatus {
    /// The number of proofs ever created.
    pub proof_count: u64,
    /// The verified figure as the registry reports it; see
    /// [`crate::registry::ProofOfExistenceContract::view_all_proof_status`].
    pub verified: u64,
    /// `proof_count - verified`.
    pub pending: u64,
}

/// Why a call was refused. Every failure leaves the registry unchanged.
#[derive(Clone, Copy, Debug, PartialEq, Eq, Structural)]
pub enum RegistryError {
    /// The record is already verified; a record is verified at most once.
    AlreadyVerified,
    /// No record was ever issued under the identifier.
    NotFound,
}

} // verus!
