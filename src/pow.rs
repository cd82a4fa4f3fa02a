use vstd::prelude::*;
use vstd::utf8::valid_utf8;

use crate::commitment::{header_committed, verify_header};
use crate::difficulty::{to_difficulty, to_difficulty_spec, Difficulty};
use crate::error::MergeMineError;
use crate::input::{create_input_blob, input_digest, input_outcome};
use crate::payload::{extra_fields_of, payload_decoding, AuxHeader, MoneroData};

verus! {

/// What the proof-of-work hash engine is given: its key and the input text.
pub struct PowInput {
    pub key: String,
    pub input: String,
}

/// What preparing the proof-of-work input of a header may return: a decoding failure
/// exactly when the payload does not decode; then a validation failure exactly when the
/// coinbase does not commit to the header; otherwise the payload's key together with an
/// outcome of building its input.
pub open spec fn pow_input_outcome(header: &AuxHeader, r: Result<PowInput, MergeMineError>) -> bool {
    match payload_decoding(header.pow_data@) {
        None => r == Err::<PowInput, MergeMineError>(MergeMineError::DeserializeError),
        Some(p) => if !header_committed(header, extra_fields_of(p.coinbase_tx)) {
            r == Err::<PowInput, MergeMineError>(MergeMineError::ValidationError)
        } else {
            match r {
                Ok(i) => i.key@ == p.key && input_outcome(p, Ok(i.input)),
                Err(e) => input_outcome(p, Err(e)),
            }
        },
    }
}

/// Whether the header's input for the hash engine can be prepared: the payload decodes,
/// its coinbase commits to the header, and the digest of its blob is text.
pub open spec fn input_prepared(header: &AuxHeader) -> bool {
    payload_decoding(header.pow_data@) matches Some(p) && header_committed(
        header,
        extra_fields_of(p.coinbase_tx),
    ) && valid_utf8(input_digest(p))
}

/// A difficulty, with zero in place of a failure.
pub open spec fn difficulty_or_zero(r: Result<Difficulty, MergeMineError>) -> Difficulty {
    match r {
        Ok(v) => v,
        Err(_) => 0,
    }
}

/// What a hash engine's answer gives: a hashing failure where the engine failed,
/// otherwise the difficulty of the hash.
pub open spec fn engine_difficulty(h: Option<[u8; 32]>) -> Result<Difficulty, MergeMineError> {
    match h {
        None => Err(MergeMineError::HashingError),
        Some(hash) => to_difficulty_spec(hash@),
    }
}

/// Decodes the header's payload, checks its commitment and builds the input of the
/// proof-of-work hash engine.
pub fn pow_input(header: &AuxHeader) -> (r: Result<PowInput, MergeMineError>)
    ensures
        pow_input_outcome(header, r),
{
    let monero = MoneroData::new(header)?;
    verify_header(header, &monero)?;
    let input = create_input_blob(&monero)?;
    Ok(PowInput { key: monero.key, input })
}

/// Turns the hash engine's answer into a difficulty; an engine failure is a hashing
/// failure.
pub fn difficulty_from_engine(h: Option<[u8; 32]>) -> (r: Result<Difficulty, MergeMineError>)
    ensures
        r == engine_difficulty(h),
{
    match h {
        None => Err(MergeMineError::HashingError),
        Some(hash) => to_difficulty(&hash),
    }
}

/// The hash engine to use where no proof-of-work hash is available: it always fails.
pub fn unavailable_hash_engine(key: &String, input: &String) -> (r: Option<[u8; 32]>)
    ensures
        r is None,
{
    None
}

/// Computes the difficulty attained by a merge-mined header, with `hash_engine` as the
/// proof-of-work hash: it is called once, on the payload's key and the built input.
/// Every failure is reported with its kind.
pub fn monero_difficulty_calculation<F: Fn(&String, &String) -> Option<[u8; 32]>>(
    header: &AuxHeader,
    hash_engine: F,
) -> (r: Result<Difficulty, MergeMineError>)
    requires
        forall|k: &String, i: &String| hash_engine.requires((k, i)),
    ensures
        !input_prepared(header) ==> r is Err && pow_input_outcome(header, Err(r->Err_0)),
        input_prepared(header) ==> exists|i: PowInput, h: Option<[u8; 32]>|
            pow_input_outcome(header, Ok(i)) && #[trigger] hash_engine.ensures((&i.key, &i.input), h)
                && engine_difficulty(h) == r,
{
    let input = match pow_input(header) {
        Ok(i) => i,
        Err(e) => {
            return Err(e);
        },
    };
    let h = hash_engine(&input.key, &input.input);
    let r = difficulty_from_engine(h);
    assert(hash_engine.ensures((&input.key, &input.input), h));
    r
}

/// Calculates the difficulty attained by a merge-mined header. A header whose payload
/// does not decode, whose coinbase does not commit to it, or whose hashing fails counts
/// as no work: its difficulty is zero.
pub fn monero_difficulty<F: Fn(&String, &String) -> Option<[u8; 32]>>(
    header: &AuxHeader,
    hash_engine: F,
) -> (r: Difficulty)
    requires
        forall|k: &String, i: &String| hash_engine.requires((k, i)),
    ensures
        !input_prepared(header) ==> r == 0,
        input_prepared(header) ==> exists|i: PowInput, h: Option<[u8; 32]>|
            pow_input_outcome(header, Ok(i)) && #[trigger] hash_engine.ensures((&i.key, &i.input), h)
                && r == difficulty_or_zero(engine_difficulty(h)),
{
    let c = monero_difficulty_calculation(header, hash_engine);
    let r = match c {
        Ok(v) => v,
        Err(_) => 0,
    };
    proof {
        if input_prepared(header) {
            let (i, h) = choose|i: PowInput, h: Option<[u8; 32]>|
                pow_input_outcome(header, Ok(i)) && #[trigger] hash_engine.ensures(
                    (&i.key, &i.input),
                    h,
                ) && engine_difficulty(h) == c;
            assert(hash_engine.ensures((&i.key, &i.input), h));
        }
    }
    r
}

} // verus!
