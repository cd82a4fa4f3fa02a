use vstd::prelude::*;
use vstd::utf8::{decode_utf8, valid_utf8};

use crate::commitment::{keccak, keccak_of};
use crate::error::MergeMineError;
use crate::payload::{DonorHeader, MoneroData, PayloadView};

verus! {

#[verifier::external_type_specification]
#[verifier::external_body]
pub struct ExFromUtf8Error(std::string::FromUtf8Error);

/// The `n` low bytes of `v`, least significant first.
pub open spec fn le_bytes(v: nat, n: nat) -> Seq<u8>
    decreases n,
{
    if n == 0 {
        Seq::empty()
    } else {
        seq![(v % 256) as u8] + le_bytes(v / 256, (n - 1) as nat)
    }
}

/// The fixed-width encoding of a donor header: the three version and time fields as
/// eight little-endian bytes each, the previous block id, then the nonce as four
/// little-endian bytes.
pub open spec fn header_bytes(h: DonorHeader) -> Seq<u8> {
    le_bytes(h.major_version as nat, 8) + le_bytes(h.minor_version as nat, 8) + le_bytes(
        h.timestamp as nat,
        8,
    ) + h.prev_id@ + le_bytes(h.nonce as nat, 4)
}

/// The bytes hashed into the proof-of-work input: the donor header, the transaction
/// root, then the transaction count as two little-endian bytes.
pub open spec fn blob_of(h: DonorHeader, root: Seq<u8>, count: u16) -> Seq<u8> {
    header_bytes(h) + root + le_bytes(count as nat, 2)
}

/// The digest of a payload's blob.
pub open spec fn input_digest(p: PayloadView) -> Seq<u8> {
    keccak_of(blob_of(p.header, p.transaction_root, p.count))
}

/// What building the proof-of-work input returns for a payload: the digest as text
/// where it is valid UTF-8, and a hashing failure exactly where it is not.
pub open spec fn input_outcome(p: PayloadView, r: Result<String, MergeMineError>) -> bool {
    match r {
        Ok(s) => valid_utf8(input_digest(p)) && s@ == decode_utf8(input_digest(p)),
        Err(e) => e == MergeMineError::HashingError && !valid_utf8(input_digest(p)),
    }
}

/// Relies on bincode::serialize of a monero::BlockHeader: each VarInt field as eight
/// little-endian bytes, the previous id as its 32 bytes, the nonce as four
/// little-endian bytes.
#[verifier::external_body]
fn serialize_header(h: &DonorHeader) -> (r: Result<Vec<u8>, Box<bincode::ErrorKind>>)
    ensures
        r is Ok,
        r matches Ok(v) ==> v@ == header_bytes(*h),
{
    bincode::serialize(
        &monero::BlockHeader {
            major_version: monero::VarInt(h.major_version),
            minor_version: monero::VarInt(h.minor_version),
            timestamp: monero::VarInt(h.timestamp),
            prev_id: monero::Hash(h.prev_id),
            nonce: h.nonce,
        },
    )
}

/// Relies on bincode::serialize of a 32-byte array: the bytes themselves.
#[verifier::external_body]
fn serialize_root(root: &[u8; 32]) -> (r: Result<Vec<u8>, Box<bincode::ErrorKind>>)
    ensures
        r is Ok,
        r matches Ok(v) ==> v@ == root@,
{
    bincode::serialize(root)
}

/// Relies on bincode::serialize of a u16: two little-endian bytes.
#[verifier::external_body]
fn serialize_count(count: u16) -> (r: Result<Vec<u8>, Box<bincode::ErrorKind>>)
    ensures
        r is Ok,
        r matches Ok(v) ==> v@ == le_bytes(count as nat, 2),
{
    bincode::serialize(&count)
}

/// Relies on String::from_utf8: succeeds exactly on valid UTF-8 and then holds the
/// decoded characters.
#[verifier::external_body]
fn text_from_utf8(b: Vec<u8>) -> (r: Result<String, std::string::FromUtf8Error>)
    ensures
        r is Ok <==> valid_utf8(b@),
        r matches Ok(s) ==> s@ == decode_utf8(b@),
{
    String::from_utf8(b)
}

/// Joins the three serialized parts of the blob in their fixed order. A part that
/// failed to serialize fails the whole, and nothing is joined.
pub fn join_blob_parts(
    header: Option<Vec<u8>>,
    root: Option<Vec<u8>>,
    count: Option<Vec<u8>>,
) -> (r: Result<Vec<u8>, MergeMineError>)
    ensures
        match (header, root, count) {
            (Some(h), Some(t), Some(c)) => r matches Ok(v) && v@ == h@ + t@ + c@,
            _ => r == Err::<Vec<u8>, MergeMineError>(MergeMineError::SerializeError),
        },
{
    match (header, root, count) {
        (Some(h), Some(t), Some(c)) => {
            let mut blob = h;
            let mut t = t;
            let mut c = c;
            blob.append(&mut t);
            blob.append(&mut c);
            Ok(blob)
        },
        _ => Err(MergeMineError::SerializeError),
    }
}

/// Hashes the blob and reads the digest as text; a digest that is not valid UTF-8 is a
/// hashing failure.
pub fn digest_text(blob: &Vec<u8>) -> (r: Result<String, MergeMineError>)
    ensures
        keccak_of(blob@).len() == 32,
        match r {
            Ok(s) => valid_utf8(keccak_of(blob@)) && s@ == decode_utf8(keccak_of(blob@)),
            Err(e) => e == MergeMineError::HashingError && !valid_utf8(keccak_of(blob@)),
        },
{
    let digest = keccak(blob.as_slice());
    let mut bytes: Vec<u8> = Vec::new();
    let mut i: usize = 0;
    while i < 32
        invariant
            i <= 32,
            bytes@ == digest@.subrange(0, i as int),
        decreases 32 - i,
    {
        bytes.push(digest[i]);
        i = i + 1;
    }
    assert(bytes@ =~= digest@);
    match text_from_utf8(bytes) {
        Ok(s) => Ok(s),
        Err(_) => Err(MergeMineError::HashingError),
    }
}

fn ok_bytes(r: Result<Vec<u8>, Box<bincode::ErrorKind>>) -> (o: Option<Vec<u8>>)
    ensures
        match r {
            Ok(v) => o == Some(v),
            Err(_) => o is None,
        },
{
    match r {
        Ok(v) => Some(v),
        Err(_) => None,
    }
}

/// Builds the proof-of-work input of a payload: the donor header, the transaction root
/// and the transaction count are serialized and joined in that order, the result is
/// hashed, and the digest is read as text.
pub fn create_input_blob(data: &MoneroData) -> (r: Result<String, MergeMineError>)
    ensures
        input_outcome(data.view(), r),
        input_digest(data.view()).len() == 32,
{
    let header = ok_bytes(serialize_header(&data.header));
    let root = ok_bytes(serialize_root(&data.transaction_root));
    let count = ok_bytes(serialize_count(data.count));
    let blob = join_blob_parts(header, root, count)?;
    assert(blob@ == blob_of(data.header, data.transaction_root@, data.count));
    digest_text(&blob)
}

/// Building the input is deterministic, and reads only the donor header, the
/// transaction root and the transaction count: two payloads that agree on these give
/// the same outcome, the same text or the same error.
pub proof fn lemma_input_deterministic(
    p1: PayloadView,
    p2: PayloadView,
    r1: Result<String, MergeMineError>,
    r2: Result<String, MergeMineError>,
)
    requires
        p1.header == p2.header,
        p1.transaction_root == p2.transaction_root,
        p1.count == p2.count,
        input_outcome(p1, r1),
        input_outcome(p2, r2),
    ensures
        r1 is Ok <==> r2 is Ok,
        r1 is Ok ==> r1->Ok_0@ == r2->Ok_0@,
        r1 is Err ==> r1->Err_0 == r2->Err_0,
{
}

} // verus!
