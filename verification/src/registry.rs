//! The proof lifecycle: identifier assignment, record storage and
//! retrieval, the one-way verification transition, and the derived
//! aggregate status.

use vstd::prelude::*;

use crate::record::{
    new_record_model, sentinel_model, verified_model, Proof, ProofModel, ProofStatus,
    RegistryError, SENTINEL_HASH_LEN,
};

verus! {

/// The models of a sequence of stored records.
pub open spec fn models_of(records: Seq<Proof>) -> Seq<ProofModel> {
    records.map(|i: int, p: Proof| p@)
}

/// The record stored at position `i` carries identifier `i + 1`, for every
/// position: identifiers are exactly `1..=len`, each mapped to one record.
pub open spec fn ids_sequential(s: Seq<ProofModel>) -> bool {
    forall|i: int| 0 <= i < s.len() ==> #[trigger] s[i].proof_id == i + 1
}

/// What a lookup yields over the model: the stored record when the
/// identifier was issued, the sentinel otherwise.
pub open spec fn lookup(s: Seq<ProofModel>, proof_id: u64) -> ProofModel {
    if 1 <= proof_id <= s.len() {
        s[proof_id - 1]
    } else {
        sentinel_model()
    }
}

/// The registry: a counter of proofs ever created, and the records
/// themselves, held in identifier order. Its view is the sequence of record
/// models.
pub struct ProofOfExistenceContract {
    proof_count: u64,
    proofs: Vec<Proof>,
}

impl View for ProofOfExistenceContract {
    type V = Seq<ProofModel>;

    closed spec fn view(&self) -> Seq<ProofModel> {
        models_of(self.proofs@)
    }
}

impl ProofOfExistenceContract {
    /// The counter equals the number of stored records.
    pub closed spec fn counter_matches(&self) -> bool {
        self.proof_count == self.proofs@.len()
    }

    /// Well-formedness: the counter counts the stored records, the count
    /// fits the counter's type, and the records carry identifiers
    /// `1..=len`, in order.
    pub open spec fn wf(&self) -> bool {
        &&& self.counter_matches()
        &&& self@.len() <= u64::MAX
        &&& ids_sequential(self@)
    }

    /// An empty registry: nothing issued yet, the counter at zero.
    pub fn new() -> (r: Self)
        ensures
            r.wf(),
            r@ == Seq::<ProofModel>::empty(),
    {
        let r = ProofOfExistenceContract { proof_count: 0, proofs: Vec::new() };
        proof {
            assert(r@ =~= Seq::<ProofModel>::empty());
        }
        r
    }

    /// Creates a new proof of existence: assigns the next identifier,
    /// stores `{proof_id, document_hash, timestamp, verified: false}` under
    /// it, bumps the counter, and returns the identifier.
    pub fn create_proof(&mut self, document_hash: Vec<u8>, timestamp: u64) -> (proof_id: u64)
        requires
            old(self).wf(),
            old(self)@.len() < u64::MAX,
        ensures
            final(self).wf(),
            proof_id == old(self)@.len() + 1,
            final(self)@ == old(self)@.push(new_record_model(proof_id, document_hash@, timestamp)),
    {
        let proof_id = self.proof_count + 1;
        let ghost h: Seq<u8> = document_hash@;
        let new_proof = Proof { proof_id, document_hash, timestamp, verified: false };
        self.proofs.push(new_proof);
        self.proof_count = proof_id;
        proof {
            assert(self@ =~= old(self)@.push(new_record_model(proof_id, h, timestamp)));
        }
        proof_id
    }

    /// Marks the record verified, exactly once. Refuses an identifier that
    /// was never issued with `NotFound`, and a record already verified with
    /// `AlreadyVerified`; a refused call changes nothing.
    pub fn verify_proof(&mut self, proof_id: u64) -> (r: Result<(), RegistryError>)
        requires
            old(self).wf(),
        ensures
            final(self).wf(),
            r is Ok <==> 1 <= proof_id <= old(self)@.len() && !old(self)@[proof_id - 1].verified,
            r is Ok ==> final(self)@ == old(self)@.update(
                proof_id - 1,
                verified_model(old(self)@[proof_id - 1]),
            ),
            r == Err::<(), RegistryError>(RegistryError::NotFound) <==> !(1 <= proof_id
                <= old(self)@.len()),
            r == Err::<(), RegistryError>(RegistryError::AlreadyVerified) <==> 1 <= proof_id
                <= old(self)@.len() && old(self)@[proof_id - 1].verified,
            r is Err ==> final(self)@ == old(self)@,
    {
        let n = self.proofs.len();
        if proof_id < 1 || proof_id > n as u64 {
            return Err(RegistryError::NotFound);
        }
        let idx: usize = (proof_id - 1) as usize;
        proof {
            assert(self@[proof_id - 1] == self.proofs@[idx as int]@);
        }
        if self.proofs[idx].verified {
            return Err(RegistryError::AlreadyVerified);
        }
        self.proofs[idx].verified = true;
        proof {
            assert(self@ =~= old(self)@.update(
                proof_id - 1,
                verified_model(old(self)@[proof_id - 1]),
            ));
        }
        Ok(())
    }

    /// Pure read: the record stored under `proof_id`, or, for an identifier
    /// that was never issued, the sentinel record — identifier zero, an
    /// all-zero hash, timestamp zero, unverified. "Not found" shows only as
    /// `proof_id == 0` in the result; no error is raised.
    pub fn view_proof(&self, proof_id: u64) -> (r: Proof)
        requires
            self.wf(),
        ensures
            r@ == lookup(self@, proof_id),
    {
        let n = self.proofs.len();
        if 1 <= proof_id && proof_id <= n as u64 {
            let idx: usize = (proof_id - 1) as usize;
            proof {
                assert(self@[proof_id - 1] == self.proofs@[idx as int]@);
            }
            let rec = &self.proofs[idx];
            Proof {
                proof_id: rec.proof_id,
                document_hash: copy_bytes(&rec.document_hash),
                timestamp: rec.timestamp,
                verified: rec.verified,
            }
        } else {
            let r = Proof {
                proof_id: 0,
                document_hash: zero_hash(),
                timestamp: 0,
                verified: false,
            };
            proof {
                assert(r@ == sentinel_model());
            }
            r
        }
    }

    /// Derives the aggregate status from the counter alone: the verified
    /// figure is read from the same counter that gives the total, so
    /// `pending` is always zero, whatever the per-record flags say.
    pub fn view_all_proof_status(&self) -> (r: ProofStatus)
        requires
            self.wf(),
        ensures
            r.proof_count == self@.len(),
            r.verified == self@.len(),
            r.pending == 0,
    {
        let proof_count = self.proof_count;
        let verified = self.proof_count;
        let pending = proof_count - verified;
        ProofStatus { proof_count, verified, pending }
    }

    /// Rebuilds a registry from records read out of the host store in
    /// identifier order. Succeeds exactly when the records carry
    /// identifiers `1..=len` in order; otherwise nothing is built.
    pub fn from_records(records: Vec<Proof>) -> (r: Option<Self>)
        ensures
            r is Some <==> ids_sequential(models_of(records@)),
            r matches Some(reg) ==> reg.wf() && reg@ == models_of(records@),
    {
        let n = records.len();
        let mut i: usize = 0;
        while i < n
            invariant
                i <= n,
                n == records@.len(),
                forall|j: int| 0 <= j < i ==> #[trigger] models_of(records@)[j].proof_id == j + 1,
            decreases n - i,
        {
            if records[i].proof_id != (i as u64) + 1 {
                proof {
                    assert(models_of(records@)[i as int].proof_id != i + 1);
                }
                return None;
            }
            i += 1;
        }
        let reg = ProofOfExistenceContract { proof_count: n as u64, proofs: records };
        Some(reg)
    }
}

/// A fresh copy of the given hash bytes.
fn copy_bytes(src: &Vec<u8>) -> (r: Vec<u8>)
    ensures
        r@ == src@,
{
    let mut r: Vec<u8> = Vec::new();
    let mut i: usize = 0;
    while i < src.len()
        invariant
            i <= src@.len(),
            r@.len() == i,
            forall|j: int| 0 <= j < i ==> r@[j] == src@[j],
        decreases src@.len() - i,
    {
        r.push(src[i]);
        i += 1;
    }
    proof {
        assert(r@ =~= src@);
    }
    r
}

/// The all-zero hash of the sentinel record.
fn zero_hash() -> (r: Vec<u8>)
    ensures
        r@ == sentinel_model().document_hash,
{
    let mut r: Vec<u8> = Vec::new();
    let mut i: usize = 0;
    while i < SENTINEL_HASH_LEN
        invariant
            i <= SENTINEL_HASH_LEN,
            r@.len() == i,
            forall|j: int| 0 <= j < i ==> r@[j] == 0u8,
        decreases SENTINEL_HASH_LEN - i,
    {
        r.push(0u8);
        i += 1;
    }
    proof {
        assert(r@ =~= sentinel_model().document_hash);
    }
    r
}

/// Identifier uniqueness: in a well-formed registry no two records share an
/// identifier. Together with `create_proof`'s postcondition — each call
/// returns one more than the count before it — the identifiers returned by
/// N successive creations are exactly `1, 2, …, N`, in call order.
pub proof fn lemma_identifiers_unique(s: Seq<ProofModel>, i: int, j: int)
    requires
        ids_sequential(s),
        0 <= i < s.len(),
        0 <= j < s.len(),
        i != j,
    ensures
        s[i].proof_id != s[j].proof_id,
{
}

/// Round trip: looking up the identifier a creation returned finds the
/// record just stored — the same hash and timestamp, under that identifier,
/// not yet verified.
pub proof fn lemma_create_round_trip(
    pre: Seq<ProofModel>,
    post: Seq<ProofModel>,
    document_hash: Seq<u8>,
    timestamp: u64,
    proof_id: u64,
)
    requires
        pre.len() < u64::MAX,
        proof_id == pre.len() + 1,
        post == pre.push(new_record_model(proof_id, document_hash, timestamp)),
    ensures
        lookup(post, proof_id).document_hash == document_hash,
        lookup(post, proof_id).timestamp == timestamp,
        lookup(post, proof_id).proof_id == proof_id,
        !lookup(post, proof_id).verified,
{
}

/// Single verification: marking an existing, unverified record verified
/// flips that one flag and nothing else. The record then reads back
/// verified — so, by `verify_proof`'s contract, a second attempt on the
/// same identifier returns `AlreadyVerified` and leaves every record
/// unchanged.
pub proof fn lemma_single_verification(pre: Seq<ProofModel>, post: Seq<ProofModel>, proof_id: u64)
    requires
        1 <= proof_id <= pre.len(),
        !pre[proof_id - 1].verified,
        post == pre.update(proof_id - 1, verified_model(pre[proof_id - 1])),
    ensures
        lookup(post, proof_id).verified,
        lookup(post, proof_id).proof_id == lookup(pre, proof_id).proof_id,
        lookup(post, proof_id).document_hash == lookup(pre, proof_id).document_hash,
        lookup(post, proof_id).timestamp == lookup(pre, proof_id).timestamp,
        post.len() == pre.len(),
        forall|other: u64| other != proof_id ==> lookup(post, other) == lookup(pre, other),
{
}

/// Not-found sentinel: an identifier that was never issued reads back as
/// the sentinel record, recognizable by `proof_id == 0`.
pub proof fn lemma_unissued_lookup_is_sentinel(s: Seq<ProofModel>, proof_id: u64)
    requires
        !(1 <= proof_id <= s.len()),
    ensures
        lookup(s, proof_id) == sentinel_model(),
        lookup(s, proof_id).proof_id == 0,
{
}

} // verus!
