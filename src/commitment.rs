use vstd::prelude::*;

use crate::error::MergeMineError;
use crate::payload::{coinbase_extra, extra_fields_of, AuxHeader, ExtraSubField, MoneroData};

verus! {

/// The Keccak-256 digest of a byte sequence.
pub uninterp spec fn keccak_of(b: Seq<u8>) -> Seq<u8>;

/// Relies on monero::Hash::new: the Keccak-256 digest of the bytes, 32 bytes long.
#[verifier::external_body]
pub(crate) fn keccak(b: &[u8]) -> (r: [u8; 32])
    ensures
        r@ == keccak_of(b@),
{
    monero::Hash::new(b).0
}

/// Whether a sub-field is the merge-mining commitment to `height` and `digest`.
pub open spec fn is_commitment(f: ExtraSubField, height: u64, digest: Seq<u8>) -> bool {
    f matches ExtraSubField::MergeMining(h, d) && h == height && d@ == digest
}

/// Whether the extra data holds the merge-mining commitment to `height` and `digest`.
pub open spec fn has_commitment(extra: Seq<ExtraSubField>, height: u64, digest: Seq<u8>) -> bool {
    exists|i: int| 0 <= i < extra.len() && #[trigger] is_commitment(extra[i], height, digest)
}

/// The commitment that an auxiliary header asks for: its height and the digest of its
/// kernel root.
pub open spec fn header_committed(header: &AuxHeader, extra: Seq<ExtraSubField>) -> bool {
    has_commitment(extra, header.height, keccak_of(header.kernel_mr@))
}

fn digests_equal(a: &[u8; 32], b: &[u8; 32]) -> (r: bool)
    ensures
        r == (a@ == b@),
{
    let mut i: usize = 0;
    while i < 32
        invariant
            i <= 32,
            forall|k: int| 0 <= k < i ==> a@[k] == b@[k],
        decreases 32 - i,
    {
        if a[i] != b[i] {
            return false;
        }
        i = i + 1;
    }
    assert(a@ =~= b@);
    true
}

/// Succeeds exactly when the extra data holds the merge-mining commitment to `height`
/// and `digest`; fails with `ValidationError` otherwise.
pub fn verify_commitment(height: u64, digest: &[u8; 32], extra: &Vec<ExtraSubField>) -> (r: Result<
    (),
    MergeMineError,
>)
    ensures
        r is Ok <==> has_commitment(extra@, height, digest@),
        r is Err ==> r == Err::<(), MergeMineError>(MergeMineError::ValidationError),
{
    let mut i: usize = 0;
    while i < extra.len()
        invariant
            i <= extra@.len(),
            forall|k: int| 0 <= k < i ==> !is_commitment(#[trigger] extra@[k], height, digest@),
        decreases extra@.len() - i,
    {
        match &extra[i] {
            ExtraSubField::MergeMining(h, d) => {
                if *h == height && digests_equal(d, digest) {
                    assert(is_commitment(extra@[i as int], height, digest@));
                    return Ok(());
                }
            },
            _ => {},
        }
        i = i + 1;
    }
    Err(MergeMineError::ValidationError)
}

/// Checks that the payload's coinbase transaction commits to the auxiliary header: its
/// extra data must hold a merge-mining entry with the header's height and the digest of
/// the header's kernel root.
pub fn verify_header(header: &AuxHeader, monero_data: &MoneroData) -> (r: Result<
    (),
    MergeMineError,
>)
    ensures
        r is Ok <==> header_committed(header, extra_fields_of(monero_data.coinbase_tx)),
        r is Err ==> r == Err::<(), MergeMineError>(MergeMineError::ValidationError),
{
    let digest = keccak(header.kernel_mr.as_slice());
    let extra = coinbase_extra(&monero_data.coinbase_tx);
    verify_commitment(header.height, &digest, &extra)
}

/// A commitment binds its height: when every merge-mining entry of the extra data
/// commits to `height`, no other height is found committed with that digest.
pub proof fn lemma_commitment_binds_height(
    extra: Seq<ExtraSubField>,
    height: u64,
    other: u64,
    digest: Seq<u8>,
)
    requires
        forall|i: int|
            0 <= i < extra.len() && (#[trigger] extra[i] matches ExtraSubField::MergeMining(
                _,
                _,
            )) ==> is_commitment(extra[i], height, digest),
        other != height,
    ensures
        !has_commitment(extra, other, digest),
{
    assert forall|i: int| 0 <= i < extra.len() implies !is_commitment(
        #[trigger] extra[i],
        other,
        digest,
    ) by {
        if extra[i] matches ExtraSubField::MergeMining(_, _) {
            assert(is_commitment(extra[i], height, digest));
        }
    }
}

/// A commitment binds its digest: when every merge-mining entry of the extra data
/// commits to `digest`, no other digest is found committed at that height.
pub proof fn lemma_commitment_binds_digest(
    extra: Seq<ExtraSubField>,
    height: u64,
    digest: Seq<u8>,
    other: Seq<u8>,
)
    requires
        forall|i: int|
            0 <= i < extra.len() && (#[trigger] extra[i] matches ExtraSubField::MergeMining(
                _,
                _,
            )) ==> is_commitment(extra[i], height, digest),
        other != digest,
    ensures
        !has_commitment(extra, height, other),
{
    assert forall|i: int| 0 <= i < extra.len() implies !is_commitment(
        #[trigger] extra[i],
        height,
        other,
    ) by {
        if extra[i] matches ExtraSubField::MergeMining(_, _) {
            assert(is_commitment(extra[i], height, digest));
        }
    }
}

} // verus!
