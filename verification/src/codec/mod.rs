//! Traits for encoding values into a series of bytes and decoding bytes back
//! into values, the body codecs that come with the library, and the glue
//! between a codec and the body methods of a model.

pub mod bincode_1_3;
pub mod postcard_1_0;
pub mod rmp_serde_1_3;

use vstd::prelude::*;
use anyhow::Error as AnyhowError;
use crate::error::{
    cause_of, is_cause_of, is_text_of, text_of, DecodeBodyError, DecodeResult, EncodeBodyError,
    EncodeResult,
};

verus! {

/// Encode trait for your own encoding method.
pub trait Encode<T> {
    type Error;

    /// Encodes a `T` into a series of bytes.
    ///
    /// The errors returned from this function depend on the trait
    /// implementor (the serializer).
    fn encode(obj: &T) -> Result<Vec<u8>, Self::Error>;
}

/// Decode trait for your own decoding method.
pub trait Decode<T> {
    type Error;

    /// Decodes a series of bytes back into a `T`.
    ///
    /// The errors returned from this function depend on the trait
    /// implementor (the deserializer).
    fn decode(data: Vec<u8>) -> Result<T, Self::Error>;
}

/// `r` is what reading a body makes of the codec's result `decoded`: the
/// value, or a decode error that holds the text of the codec's error and
/// that error itself as its cause.
pub open spec fn decode_body_result_spec<T, E: core::fmt::Display + Into<AnyhowError>>(
    decoded: Result<T, E>,
    r: DecodeResult<T>,
) -> bool {
    match decoded {
        Ok(value) => r == Ok::<T, DecodeBodyError>(value),
        Err(e) => exists|msg: String, source: AnyhowError|
            #![trigger is_text_of(&e, msg), is_cause_of(e, source)]
            is_text_of(&e, msg) && is_cause_of(e, source) && r == Err::<T, DecodeBodyError>(
                DecodeBodyError::DecodeError { msg, source },
            ),
    }
}

/// `r` is what writing a body makes of the codec's result `encoded`: the
/// bytes, or an encode error that holds the text of the codec's error and
/// that error itself as its cause.
pub open spec fn encode_body_result_spec<E: core::fmt::Display + Into<AnyhowError>>(
    encoded: Result<Vec<u8>, E>,
    r: EncodeResult<Vec<u8>>,
) -> bool {
    match encoded {
        Ok(bytes) => r == Ok::<Vec<u8>, EncodeBodyError>(bytes),
        Err(e) => exists|msg: String, source: AnyhowError|
            #![trigger is_text_of(&e, msg), is_cause_of(e, source)]
            is_text_of(&e, msg) && is_cause_of(e, source) && r == Err::<Vec<u8>, EncodeBodyError>(
                EncodeBodyError { msg, source },
            ),
    }
}

/// Tells whether a body that claims the identity `id` may be read by the
/// model with the identity `own_id`.
pub fn check_model_id(id: u32, own_id: u32) -> (r: DecodeResult<()>)
    ensures
        id == own_id ==> r == Ok::<(), DecodeBodyError>(()),
        id != own_id ==> r == Err::<(), DecodeBodyError>(DecodeBodyError::MismatchedModelId),
{
    if id != own_id {
        Err(DecodeBodyError::MismatchedModelId)
    } else {
        Ok(())
    }
}

/// The outcome of reading a body from the outcome of the codec: the value,
/// or a decode error that carries the text of the codec's error and the
/// error itself.
pub fn decode_body_result<T, E: core::fmt::Display + Into<AnyhowError>>(decoded: Result<T, E>) -> (r: DecodeResult<T>)
    ensures
        decode_body_result_spec(decoded, r),
{
    match decoded {
        Ok(value) => Ok(value),
        Err(e) => {
            let msg = text_of(&e);
            Err(DecodeBodyError::DecodeError { msg, source: cause_of(e) })
        },
    }
}

/// The outcome of writing a body from the outcome of the codec: the bytes,
/// or an encode error that carries the text of the codec's error and the
/// error itself.
pub fn encode_body_result<E: core::fmt::Display + Into<AnyhowError>>(encoded: Result<Vec<u8>, E>) -> (r: EncodeResult<
    Vec<u8>,
>)
    ensures
        encode_body_result_spec(encoded, r),
{
    match encoded {
        Ok(bytes) => Ok(bytes),
        Err(e) => {
            let msg = text_of(&e);
            Err(EncodeBodyError { msg, source: cause_of(e) })
        },
    }
}

/// Reads a body for the model with the identity `own_id` with the codec `C`.
/// A body that claims another identity is refused before the codec sees it;
/// else the result is made of what `C::decode` gives for the body.
pub fn decode_body_with<T, C: Decode<T>>(data: Vec<u8>, id: u32, own_id: u32) -> (r: DecodeResult<
    T,
>) where C::Error: core::fmt::Display + Into<AnyhowError>
    ensures
        id != own_id ==> r == Err::<T, DecodeBodyError>(DecodeBodyError::MismatchedModelId),
        id == own_id ==> exists|decoded: Result<T, C::Error>| #[trigger]
            call_ensures(C::decode, (data,), decoded) && decode_body_result_spec(decoded, r),
{
    match check_model_id(id, own_id) {
        Ok(_) => decode_body_result(C::decode(data)),
        Err(e) => Err(e),
    }
}

/// Writes the body of a value with the codec `C`: the result is made of
/// what `C::encode` gives for the value.
pub fn encode_body_with<T, C: Encode<T>>(obj: &T) -> (r: EncodeResult<Vec<u8>>) where
    C::Error: core::fmt::Display + Into<AnyhowError>,

    ensures
        exists|encoded: Result<Vec<u8>, C::Error>| #[trigger]
            call_ensures(C::encode, (obj,), encoded) && encode_body_result_spec(encoded, r),
{
    encode_body_result(C::encode(obj))
}

} // verus!
