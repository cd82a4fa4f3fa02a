use monero::blockdata::transaction::{ExtraField, RawExtraField, SubField};
use monero::VarInt;

use monero_rx::commitment::{verify_commitment, verify_header};
use monero_rx::difficulty::to_difficulty;
use monero_rx::error::MergeMineError;
use monero_rx::input::{create_input_blob, digest_text, join_blob_parts};
use monero_rx::payload::{AuxHeader, DonorHeader, ExtraSubField, MoneroData};
use monero_rx::pow::{
    difficulty_from_engine, monero_difficulty, monero_difficulty_calculation, pow_input,
    unavailable_hash_engine,
};

fn donor_header() -> monero::BlockHeader {
    monero::BlockHeader {
        major_version: VarInt(14),
        minor_version: VarInt(14),
        timestamp: VarInt(1_600_000_000),
        prev_id: monero::Hash([7u8; 32]),
        nonce: 0x0102_0304,
    }
}

fn coinbase_with(fields: Vec<SubField>) -> monero::Transaction {
    let mut tx = monero::Transaction::default();
    tx.prefix.extra = RawExtraField::from(ExtraField(fields));
    tx
}

fn payload_bytes(key: &str, count: u16, root: [u8; 32], tx: monero::Transaction) -> Vec<u8> {
    bincode::serialize(&(
        donor_header(),
        key.to_string(),
        count,
        root,
        tari_mmr::MerkleProof::default(),
        tx,
    ))
    .unwrap()
}

fn aux_header(height: u64, kernel_mr: Vec<u8>, pow_data: Vec<u8>) -> AuxHeader {
    AuxHeader { height, kernel_mr, pow_data }
}

fn hash_with_bit(bit: usize) -> [u8; 32] {
    // bit counts from the least significant bit of the big-endian number
    let mut h = [0u8; 32];
    h[31 - bit / 8] = 1u8 << (bit % 8);
    h
}

#[test]
fn zero_hash_is_a_hashing_error() {
    assert_eq!(to_difficulty(&[0u8; 32]), Err(MergeMineError::HashingError));
}

#[test]
fn hash_of_one_keeps_low_bits_of_max_target() {
    assert_eq!(to_difficulty(&hash_with_bit(0)), Ok(u64::MAX));
}

#[test]
fn hash_of_two_pow_192_gives_largest_difficulty() {
    assert_eq!(to_difficulty(&hash_with_bit(192)), Ok(u64::MAX));
}

#[test]
fn hash_of_two_pow_200() {
    assert_eq!(to_difficulty(&hash_with_bit(200)), Ok(0x00FF_FFFF_FFFF_FFFF));
}

#[test]
fn top_bit_hash_gives_one() {
    assert_eq!(to_difficulty(&hash_with_bit(255)), Ok(1));
    assert_eq!(to_difficulty(&[0xFFu8; 32]), Ok(1));
}

#[test]
fn hash_of_three_keeps_low_bits() {
    // (2^256 - 1) / 3 = 0x5555...5555
    let mut h = [0u8; 32];
    h[31] = 3;
    assert_eq!(to_difficulty(&h), Ok(0x5555_5555_5555_5555));
}

#[test]
fn smaller_hash_gives_no_smaller_difficulty() {
    let mut h1 = hash_with_bit(200);
    h1[31] = 0x11;
    let mut h2 = hash_with_bit(201);
    h2[20] = 0x42;
    let d1 = to_difficulty(&h1).unwrap();
    let d2 = to_difficulty(&h2).unwrap();
    assert!(d1 >= d2);
    assert!(d1 > 0 && d2 > 0);
}

#[test]
fn quotient_beyond_64_bits_keeps_only_its_low_bits() {
    // (2^256 - 1) / (2^192 - 2^128) = 2^64 + 1, of which the low 64 bits are 1
    let mut h1 = [0u8; 32];
    for b in h1[8..16].iter_mut() {
        *b = 0xFF;
    }
    assert_eq!(to_difficulty(&h1), Ok(1));
    assert_eq!(to_difficulty(&hash_with_bit(192)), Ok(u64::MAX));
}

#[test]
fn engine_failure_is_a_hashing_error() {
    assert_eq!(difficulty_from_engine(None), Err(MergeMineError::HashingError));
    assert_eq!(difficulty_from_engine(Some(hash_with_bit(255))), Ok(1));
    assert_eq!(unavailable_hash_engine(&"k".to_string(), &"i".to_string()), None);
}

#[test]
fn commitment_found_at_its_height() {
    let digest = [9u8; 32];
    let extra = vec![
        ExtraSubField::TxPublicKey,
        ExtraSubField::MergeMining(1000, digest),
        ExtraSubField::Nonce,
    ];
    assert_eq!(verify_commitment(1000, &digest, &extra), Ok(()));
    assert_eq!(verify_commitment(1001, &digest, &extra), Err(MergeMineError::ValidationError));
    let mut other = digest;
    other[0] ^= 1;
    assert_eq!(verify_commitment(1000, &other, &extra), Err(MergeMineError::ValidationError));
    assert_eq!(verify_commitment(1000, &digest, &vec![]), Err(MergeMineError::ValidationError));
}

#[test]
fn header_commitment_scenario() {
    let kernel = vec![0xABu8; 32];
    let committed = monero::Hash::new(&kernel);
    let tx = coinbase_with(vec![SubField::MergeMining(VarInt(1000), committed)]);
    let bytes = payload_bytes("key", 3, [5u8; 32], tx);
    let header = aux_header(1000, kernel.clone(), bytes);
    let data = MoneroData::new(&header).unwrap();
    assert_eq!(verify_header(&header, &data), Ok(()));

    // The raw kernel root is not the committed digest: the wrapper must hash it.
    let tx_raw = coinbase_with(vec![SubField::MergeMining(VarInt(1000), monero::Hash(kernel.clone().try_into().unwrap()))]);
    let raw = MoneroData::new(&aux_header(1000, kernel.clone(), payload_bytes("key", 3, [5u8; 32], tx_raw))).unwrap();
    assert_eq!(verify_header(&header, &raw), Err(MergeMineError::ValidationError));

    let tx_moved = coinbase_with(vec![SubField::MergeMining(VarInt(1001), committed)]);
    let moved_bytes = payload_bytes("key", 3, [5u8; 32], tx_moved);
    let moved_header = aux_header(1000, kernel, moved_bytes);
    let moved = MoneroData::new(&moved_header).unwrap();
    assert_eq!(verify_header(&moved_header, &moved), Err(MergeMineError::ValidationError));
}

#[test]
fn payload_decodes_what_was_encoded() {
    let tx = coinbase_with(vec![SubField::MergeMining(VarInt(42), monero::Hash([1u8; 32]))]);
    let bytes = payload_bytes("randomx key", 17, [3u8; 32], tx.clone());
    let data = MoneroData::new(&aux_header(42, vec![], bytes)).unwrap();
    assert_eq!(
        data.header,
        DonorHeader {
            major_version: 14,
            minor_version: 14,
            timestamp: 1_600_000_000,
            prev_id: [7u8; 32],
            nonce: 0x0102_0304,
        }
    );
    assert_eq!(data.key, "randomx key");
    assert_eq!(data.count, 17);
    assert_eq!(data.transaction_root, [3u8; 32]);
    assert_eq!(data.merkle_proof, tari_mmr::MerkleProof::default());
    assert_eq!(data.coinbase_tx, tx);
}

#[test]
fn garbage_payload_is_a_deserialize_error() {
    let header = aux_header(1, vec![], vec![1, 2, 3]);
    assert!(matches!(MoneroData::new(&header), Err(MergeMineError::DeserializeError)));
    assert!(matches!(pow_input(&header), Err(MergeMineError::DeserializeError)));
}

#[test]
fn unparsable_payload_has_zero_difficulty() {
    let header = aux_header(1000, vec![0u8; 32], vec![0xFF; 5]);
    let d = monero_difficulty(&header, |_: &String, _: &String| Some([0x01u8; 32]));
    assert_eq!(d, 0);
    assert_eq!(
        monero_difficulty_calculation(&header, |_: &String, _: &String| Some([0x01u8; 32])),
        Err(MergeMineError::DeserializeError)
    );
}

#[test]
fn uncommitted_header_has_zero_difficulty() {
    let tx = coinbase_with(vec![SubField::MergeMining(VarInt(999), monero::Hash::new(&[0u8; 32]))]);
    let header = aux_header(1000, vec![0u8; 32], payload_bytes("k", 1, [0u8; 32], tx));
    assert_eq!(
        monero_difficulty_calculation(&header, |_: &String, _: &String| Some([0x01u8; 32])),
        Err(MergeMineError::ValidationError)
    );
    assert_eq!(monero_difficulty(&header, |_: &String, _: &String| Some([0x01u8; 32])), 0);
}

fn expected_blob(count: u16, root: [u8; 32]) -> Vec<u8> {
    let mut blob = Vec::new();
    blob.extend_from_slice(&14u64.to_le_bytes());
    blob.extend_from_slice(&14u64.to_le_bytes());
    blob.extend_from_slice(&1_600_000_000u64.to_le_bytes());
    blob.extend_from_slice(&[7u8; 32]);
    blob.extend_from_slice(&0x0102_0304u32.to_le_bytes());
    blob.extend_from_slice(&root);
    blob.extend_from_slice(&count.to_le_bytes());
    blob
}

#[test]
fn input_blob_is_the_digest_of_header_root_and_count() {
    let tx = coinbase_with(vec![]);
    let data = MoneroData::new(&aux_header(0, vec![], payload_bytes("k", 258, [4u8; 32], tx))).unwrap();
    let digest = monero::Hash::new(expected_blob(258, [4u8; 32])).0;
    let expected = match std::str::from_utf8(&digest) {
        Ok(s) => Ok(s.to_string()),
        Err(_) => Err(MergeMineError::HashingError),
    };
    assert_eq!(create_input_blob(&data), expected);
    assert_eq!(create_input_blob(&data), create_input_blob(&data));
}

#[test]
fn digest_text_rejects_non_text_digest() {
    let blob = b"merge mining".to_vec();
    let digest = monero::Hash::new(&blob).0;
    let expected = match std::str::from_utf8(&digest) {
        Ok(s) => Ok(s.to_string()),
        Err(_) => Err(MergeMineError::HashingError),
    };
    assert_eq!(digest_text(&blob), expected);
}

#[test]
fn blob_parts_join_in_order() {
    assert_eq!(
        join_blob_parts(Some(vec![1, 2]), Some(vec![3]), Some(vec![4, 5])),
        Ok(vec![1, 2, 3, 4, 5])
    );
    assert_eq!(
        join_blob_parts(Some(vec![1]), None, Some(vec![2])),
        Err(MergeMineError::SerializeError)
    );
}

#[test]
fn committed_header_reaches_the_engine() {
    let kernel = vec![0x11u8; 32];
    let tx = coinbase_with(vec![SubField::MergeMining(VarInt(1000), monero::Hash::new(&kernel))]);
    let header = aux_header(1000, kernel, payload_bytes("engine key", 2, [6u8; 32], tx));
    let digest = monero::Hash::new(expected_blob(2, [6u8; 32])).0;
    let engine = |k: &String, _: &String| {
        assert_eq!(k, "engine key");
        Some(hash_with_bit(255))
    };
    match std::str::from_utf8(&digest) {
        Ok(_) => assert_eq!(monero_difficulty_calculation(&header, engine), Ok(1)),
        Err(_) => {
            assert_eq!(
                monero_difficulty_calculation(&header, engine),
                Err(MergeMineError::HashingError)
            );
            assert_eq!(monero_difficulty(&header, engine), 0);
        },
    }
}

#[test]
fn unavailable_engine_gives_hashing_error_on_committed_header() {
    let kernel = vec![0x22u8; 32];
    let tx = coinbase_with(vec![SubField::MergeMining(VarInt(7), monero::Hash::new(&kernel))]);
    let header = aux_header(7, kernel, payload_bytes("k", 9, [8u8; 32], tx));
    assert_eq!(
        monero_difficulty_calculation(&header, unavailable_hash_engine),
        Err(MergeMineError::HashingError)
    );
    assert_eq!(monero_difficulty(&header, unavailable_hash_engine), 0);
}

#[test]
fn input_reads_only_header_root_and_count() {
    let a = MoneroData::new(&aux_header(0, vec![], payload_bytes("one key", 5, [2u8; 32], coinbase_with(vec![])))).unwrap();
    let tx = coinbase_with(vec![SubField::MergeMining(VarInt(3), monero::Hash([0u8; 32]))]);
    let b = MoneroData::new(&aux_header(0, vec![], payload_bytes("other key", 5, [2u8; 32], tx))).unwrap();
    assert_eq!(create_input_blob(&a), create_input_blob(&b));
    let c = MoneroData::new(&aux_header(0, vec![], payload_bytes("one key", 6, [2u8; 32], coinbase_with(vec![])))).unwrap();
    let digest_a = monero::Hash::new(expected_blob(5, [2u8; 32])).0;
    let digest_c = monero::Hash::new(expected_blob(6, [2u8; 32])).0;
    assert_ne!(digest_a, digest_c);
    if let Ok(s) = create_input_blob(&c) {
        assert_eq!(s.as_bytes(), &digest_c[..]);
    }
}
