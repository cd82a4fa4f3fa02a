use vstd::prelude::*;

use monero::blockdata::transaction::SubField;

use crate::error::MergeMineError;

verus! {

#[verifier::external_type_specification]
#[verifier::external_body]
pub struct ExTransaction(monero::Transaction);

#[verifier::external_type_specification]
#[verifier::external_body]
pub struct ExMerkleProof(tari_mmr::MerkleProof);

#[verifier::external_type_specification]
#[verifier::external_body]
pub struct ExBincodeErrorKind(bincode::ErrorKind);

/// The fields of an auxiliary-chain block header that merge mining reads.
pub struct AuxHeader {
    /// Height of the auxiliary block.
    pub height: u64,
    /// Root of the auxiliary block's kernel Merkle mountain range.
    pub kernel_mr: Vec<u8>,
    /// The serialized merge-mining payload carried in the proof-of-work field.
    pub pow_data: Vec<u8>,
}

/// A donor-chain block header, as plain values.
#[derive(Clone, Copy, Debug, PartialEq, Eq)]
pub struct DonorHeader {
    pub major_version: u64,
    pub minor_version: u64,
    pub timestamp: u64,
    pub prev_id: [u8; 32],
    pub nonce: u32,
}

/// One sub-field of a donor coinbase transaction's extra data. Only the merge-mining
/// sub-field keeps its contents: the others are never read here.
#[derive(Clone, Copy, Debug, PartialEq, Eq)]
pub enum ExtraSubField {
    TxPublicKey,
    Nonce,
    Padding,
    /// A merge-mining commitment: a height and a 32-byte digest.
    MergeMining(u64, [u8; 32]),
    AdditionalPublicKey,
    MysteriousMinerGate,
}

/// The merge-mining payload carried in an auxiliary header's proof-of-work field.
pub struct MoneroData {
    /// The donor block header.
    pub header: DonorHeader,
    /// Key of the proof-of-work hash engine.
    pub key: String,
    /// Number of donor transactions summarized by `transaction_root`.
    pub count: u16,
    /// Merkle root of the donor transactions.
    pub transaction_root: [u8; 32],
    /// Inclusion proof of the auxiliary commitment.
    pub merkle_proof: tari_mmr::MerkleProof,
    /// The donor coinbase transaction.
    pub coinbase_tx: monero::Transaction,
}

/// The part of a payload that the checks read.
pub struct PayloadView {
    pub header: DonorHeader,
    pub key: Seq<char>,
    pub count: u16,
    pub transaction_root: Seq<u8>,
    pub coinbase_tx: monero::Transaction,
}

impl MoneroData {
    pub open spec fn view(&self) -> PayloadView {
        PayloadView {
            header: self.header,
            key: self.key@,
            count: self.count,
            transaction_root: self.transaction_root@,
            coinbase_tx: self.coinbase_tx,
        }
    }
}

/// The payload that the fixed binary schema decodes from the given bytes, if any.
pub uninterp spec fn payload_decoding(b: Seq<u8>) -> Option<PayloadView>;

/// The sub-fields that a transaction's extra data parses into.
pub uninterp spec fn extra_fields_of(tx: monero::Transaction) -> Seq<ExtraSubField>;

/// Relies on bincode::deserialize, reading in order the donor header, the hash key, the
/// transaction count, the transaction root, the inclusion proof and the coinbase
/// transaction. Its outcome depends on the bytes alone.
#[verifier::external_body]
fn deserialize_payload(b: &[u8]) -> (r: Result<MoneroData, Box<bincode::ErrorKind>>)
    ensures
        match r {
            Ok(d) => payload_decoding(b@) == Some(d.view()),
            Err(_) => payload_decoding(b@) is None,
        },
{
    let (h, key, count, transaction_root, merkle_proof, coinbase_tx) = bincode::deserialize::<
        (monero::BlockHeader, String, u16, [u8; 32], tari_mmr::MerkleProof, monero::Transaction),
    >(b)?;
    let header = DonorHeader {
        major_version: h.major_version.0,
        minor_version: h.minor_version.0,
        timestamp: h.timestamp.0,
        prev_id: h.prev_id.0,
        nonce: h.nonce,
    };
    Ok(MoneroData { header, key, count, transaction_root, merkle_proof, coinbase_tx })
}

/// Relies on monero::RawExtraField::try_parse: the sub-fields of a transaction's raw
/// extra data, as far as they parse.
#[verifier::external_body]
pub(crate) fn coinbase_extra(tx: &monero::Transaction) -> (r: Vec<ExtraSubField>)
    ensures
        r@ == extra_fields_of(*tx),
{
    tx.prefix.extra.try_parse().0.into_iter().map(|f| match f {
        SubField::TxPublicKey(_) => ExtraSubField::TxPublicKey,
        SubField::Nonce(_) => ExtraSubField::Nonce,
        SubField::Padding(_) => ExtraSubField::Padding,
        SubField::MergeMining(v, h) => ExtraSubField::MergeMining(v.0, h.0),
        SubField::AdditionalPublickKey(_) => ExtraSubField::AdditionalPublicKey,
        SubField::MysteriousMinerGate(_) => ExtraSubField::MysteriousMinerGate,
    }).collect()
}

impl MoneroData {
    /// Decodes the merge-mining payload carried in the header's proof-of-work field.
    /// Decoding is all or nothing.
    pub fn new(tari_header: &AuxHeader) -> (r: Result<MoneroData, MergeMineError>)
        ensures
            match r {
                Ok(d) => payload_decoding(tari_header.pow_data@) == Some(d.view()),
                Err(e) => e == MergeMineError::DeserializeError && payload_decoding(
                    tari_header.pow_data@,
                ) is None,
            },
    {
        match deserialize_payload(tari_header.pow_data.as_slice()) {
            Ok(d) => Ok(d),
            Err(_) => Err(MergeMineError::DeserializeError),
        }
    }
}

} // verus!
