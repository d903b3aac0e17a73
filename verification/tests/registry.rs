//! End-to-end checks of the registry through its public surface.

use proof_registry::{Proof, ProofOfExistenceContract, RegistryError};

fn hash(byte: u8) -> Vec<u8> {
    vec![byte; 32]
}

#[test]
fn identifiers_are_sequential() {
    let mut registry = ProofOfExistenceContract::new();
    for expected in 1u64..=5 {
        let id = registry.create_proof(hash(expected as u8), 100 + expected);
        assert_eq!(id, expected);
    }
}

#[test]
fn create_then_view_round_trips() {
    let mut registry = ProofOfExistenceContract::new();
    let h = hash(0xab);
    let id = registry.create_proof(h.clone(), 1234);
    let record = registry.view_proof(id);
    assert_eq!(record.proof_id, id);
    assert_eq!(record.document_hash, h);
    assert_eq!(record.timestamp, 1234);
    assert!(!record.verified);
}

#[test]
fn empty_hash_round_trips() {
    let mut registry = ProofOfExistenceContract::new();
    let id = registry.create_proof(Vec::new(), 0);
    let record = registry.view_proof(id);
    assert_eq!(record.proof_id, 1);
    assert_eq!(record.document_hash, Vec::<u8>::new());
    assert!(!record.verified);
}

#[test]
fn single_verification_sets_the_flag_once() {
    let mut registry = ProofOfExistenceContract::new();
    let id = registry.create_proof(hash(1), 10);
    assert_eq!(registry.verify_proof(id), Ok(()));
    let record = registry.view_proof(id);
    assert!(record.verified);

    assert_eq!(registry.verify_proof(id), Err(RegistryError::AlreadyVerified));
    let after = registry.view_proof(id);
    assert_eq!(after.proof_id, record.proof_id);
    assert_eq!(after.document_hash, record.document_hash);
    assert_eq!(after.timestamp, record.timestamp);
    assert!(after.verified);
}

#[test]
fn verify_of_an_unissued_identifier_is_refused() {
    let mut registry = ProofOfExistenceContract::new();
    assert_eq!(registry.verify_proof(1), Err(RegistryError::NotFound));
    registry.create_proof(hash(1), 10);
    registry.create_proof(hash(2), 20);
    assert_eq!(registry.verify_proof(0), Err(RegistryError::NotFound));
    assert_eq!(registry.verify_proof(3), Err(RegistryError::NotFound));
}

#[test]
fn view_of_an_unissued_identifier_is_the_sentinel() {
    let mut registry = ProofOfExistenceContract::new();
    registry.create_proof(hash(1), 10);
    registry.create_proof(hash(2), 20);
    let record = registry.view_proof(999);
    assert_eq!(record.proof_id, 0);
    assert_eq!(record.document_hash, vec![0u8; 32]);
    assert_eq!(record.timestamp, 0);
    assert!(!record.verified);
}

#[test]
fn summary_reads_verified_from_the_counter() {
    let mut registry = ProofOfExistenceContract::new();
    registry.create_proof(hash(1), 10);
    registry.create_proof(hash(2), 20);
    registry.create_proof(hash(3), 30);
    assert_eq!(registry.verify_proof(1), Ok(()));
    let status = registry.view_all_proof_status();
    assert_eq!(status.proof_count, 3);
    assert_eq!(status.verified, 3);
    assert_eq!(status.pending, 0);
}

#[test]
fn summary_of_an_empty_registry_is_zero() {
    let registry = ProofOfExistenceContract::new();
    let status = registry.view_all_proof_status();
    assert_eq!(status.proof_count, 0);
    assert_eq!(status.verified, 0);
    assert_eq!(status.pending, 0);
}

#[test]
fn lifecycle_scenario() {
    let mut registry = ProofOfExistenceContract::new();
    let h1 = hash(0x11);
    let h2 = hash(0x22);
    assert_eq!(registry.create_proof(h1, 100), 1);
    assert_eq!(registry.create_proof(h2, 200), 2);

    assert_eq!(registry.verify_proof(1), Ok(()));
    assert!(registry.view_proof(1).verified);

    assert_eq!(registry.verify_proof(1), Err(RegistryError::AlreadyVerified));
    assert!(registry.view_proof(1).verified);
    assert_eq!(registry.view_proof(1).document_hash, hash(0x11));

    assert!(!registry.view_proof(2).verified);
}

#[test]
fn from_records_accepts_sequential_identifiers() {
    let records = vec![
        Proof { proof_id: 1, document_hash: hash(1), timestamp: 10, verified: true },
        Proof { proof_id: 2, document_hash: hash(2), timestamp: 20, verified: false },
    ];
    let registry = ProofOfExistenceContract::from_records(records).unwrap();
    assert!(registry.view_proof(1).verified);
    assert_eq!(registry.view_proof(2).document_hash, hash(2));
    assert_eq!(registry.view_all_proof_status().proof_count, 2);
}

#[test]
fn from_records_refuses_out_of_sequence_identifiers() {
    let records = vec![
        Proof { proof_id: 1, document_hash: hash(1), timestamp: 10, verified: false },
        Proof { proof_id: 3, document_hash: hash(3), timestamp: 30, verified: false },
    ];
    assert!(ProofOfExistenceContract::from_records(records).is_none());
}
