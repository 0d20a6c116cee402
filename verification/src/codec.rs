//! The codec boundary: what becomes of a body once its bytes have gone
//! through the codec.

use vstd::prelude::*;
use crate::error::BincodePayloadError;

verus! {

/// What a body becomes once the codec has answered: the value, or a
/// deserialize failure that holds the codec's error.
pub open spec fn decoded_outcome<U>(decoded: Result<U, bincode::Error>) -> Result<
    U,
    BincodePayloadError,
> {
    match decoded {
        Ok(value) => Ok(value),
        Err(cause) => Err(BincodePayloadError::Deserialize(cause)),
    }
}

/// Turns the codec's answer into the body's outcome.
pub fn outcome_of<U>(decoded: Result<U, bincode::Error>) -> (outcome: Result<
    U,
    BincodePayloadError,
>)
    ensures
        outcome == decoded_outcome(decoded),
{
    match decoded {
        Ok(value) => Ok(value),
        Err(cause) => Err(BincodePayloadError::from(cause)),
    }
}

/// Decodes `bytes` with `codec`, in one attempt: the codec is called once,
/// on these bytes, and its answer becomes the outcome. No failure other than
/// a deserialize failure comes out of here.
pub fn deserialize<U, F>(bytes: &[u8], codec: F) -> (outcome: Result<U, BincodePayloadError>) where
    F: FnOnce(&[u8]) -> Result<U, bincode::Error>,

    requires
        call_requires(codec, (bytes,)),
    ensures
        exists|decoded: Result<U, bincode::Error>|
            call_ensures(codec, (bytes,), decoded) && outcome == decoded_outcome(decoded),
{
    let decoded = codec(bytes);
    outcome_of(decoded)
}

} // verus!
