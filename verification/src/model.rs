//! The contract of a versioned model, and what encoding and decoding an
//! envelope mean in terms of the methods of a model.
//!
//! The versions of one model share an identity and form a chain: every
//! version but the oldest names the version before it, and converts from and
//! into it. Decoding walks the chain down from the requested version to the
//! version found in the header and converts the value back up; encoding for
//! an older version converts down and lets that version write the body.
//!
//! A model is written by the user of the library, so nothing is taken for
//! granted of its methods. A contract speaks of what a method of a model
//! gives through `call_ensures`: `reads_body::<M>(data, id, d)` holds where
//! `d` is a result that `M::native_model_decode_body(data, id)` can give. A
//! model that is verified says in the `ensures` of its methods what they
//! give, and the contracts here then say what encoding and decoding give.

use vstd::prelude::*;
use vstd::slice::slice_to_vec;
use crate::error::{DecodeResult, EncodeResult, Error};
use crate::header::{
    body_of, claimed_id, claimed_version, header_bytes, lemma_envelope_parts, HEADER_LEN,
};
use crate::wrapper::{native_model_encode, Wrapper};

verus! {

/// One version of a model by itself: its identity, its version and its body
/// codec.
///
/// The two body methods are written with a codec and the functions of
/// [`crate::codec`].
pub trait Versioned: Sized {
    /// The identity shared by all versions of the model.
    fn native_model_id() -> u32;

    /// The identity, in decimal.
    fn native_model_id_str() -> &'static str;

    /// The version, counted from 1 for the oldest.
    fn native_model_version() -> u32;

    /// The version, in decimal.
    fn native_model_version_str() -> &'static str;

    /// Reads a value of this version from a body, unless the body claims
    /// another identity.
    fn native_model_decode_body(data: Vec<u8>, id: u32) -> DecodeResult<Self>;

    /// Writes the body of a value.
    fn native_model_encode_body(&self) -> EncodeResult<Vec<u8>>;
}

/// One version of a model in its chain of versions.
///
/// `native_model_decode_upgrade_body` and `native_model_encode_downgrade_body`
/// are written as one call of a function of [`crate::negotiation`], chosen by
/// the way in which this version names the one before it. Those functions
/// ask the version itself for no more than [`Versioned`] holds, which is why
/// the two traits are apart: an impl of `Model` may call them for its own
/// type.
pub trait Model: Versioned {
    // --------------- Decode ---------------
    /// Reads a value of this version from a body of this or an older version.
    fn native_model_decode_upgrade_body(data: Vec<u8>, id: u32, version: u32) -> Result<
        Self,
        Error,
    >;

    /// Reads a value of this version from an envelope, and gives with it the
    /// version that the envelope was written in.
    ///
    /// A buffer shorter than a header is refused. Else the result is what
    /// `native_model_decode_upgrade_body` gives for the body, the identity
    /// and the version of the envelope, with that version beside the value.
    fn native_model_decode(data: Vec<u8>) -> (r: Result<(Self, u32), Error>)
        ensures
            data@.len() < HEADER_LEN ==> r == Err::<(Self, u32), Error>(Error::InvalidHeader),
            data@.len() >= HEADER_LEN ==> exists|body: Vec<u8>, upgraded: Result<Self, Error>|
                {
                    &&& #[trigger] call_ensures(
                        Self::native_model_decode_upgrade_body,
                        (body, claimed_id(data@), claimed_version(data@)),
                        upgraded,
                    )
                    &&& body@ == body_of(data@)
                    &&& r == with_version(upgraded, claimed_version(data@))
                },
            r matches Ok((_, version)) ==> data@.len() >= HEADER_LEN && version == claimed_version(
                data@,
            ),
    {
        match Wrapper::deserialize(data.as_slice()) {
            None => Err(Error::InvalidHeader),
            Some(native_model) => {
                let source_id = native_model.get_id();
                let source_version = native_model.get_version();
                let body = slice_to_vec(native_model.value());
                match Self::native_model_decode_upgrade_body(body, source_id, source_version) {
                    Ok(result) => Ok((result, source_version)),
                    Err(e) => Err(e),
                }
            },
        }
    }

    // --------------- Encode ---------------
    /// Writes the body of a value as this or an older version has it.
    fn native_model_encode_downgrade_body(self, version: u32) -> Result<Vec<u8>, Error>;

    /// Writes the envelope of a value: the header with the identity and the
    /// version of this model, then the body that `native_model_encode_body`
    /// gives. Fails exactly where that fails, and with its error.
    fn native_model_encode(&self) -> (r: Result<Vec<u8>, Error>)
        ensures
            exists|body: EncodeResult<Vec<u8>>|
                {
                    &&& #[trigger] writes_body::<Self>(self, body)
                    &&& match body {
                        Ok(body) => exists|id: u32, version: u32|
                            {
                                &&& #[trigger] is_id_of::<Self>(id)
                                &&& #[trigger] is_version_of::<Self>(version)
                                &&& sealed(r, id, version, body@)
                            },
                        Err(e) => r == Err::<Vec<u8>, Error>(Error::EncodeBodyError(e)),
                    }
                },
            r matches Ok(packed) ==> exists|body: Vec<u8>| #[trigger]
                writes_body::<Self>(self, Ok(body)) && packed@.len() == HEADER_LEN + body@.len(),
    {
        match self.native_model_encode_body() {
            Ok(mut data) => {
                let id = Self::native_model_id();
                let version = Self::native_model_version();
                Ok(native_model_encode(&mut data, id, version))
            },
            Err(e) => Err(Error::EncodeBodyError(e)),
        }
    }

    /// Writes the envelope of a value as this or an older version has it:
    /// the header with the identity of this model and the version asked for,
    /// then the body that `native_model_encode_downgrade_body` gives. Fails
    /// exactly where that fails, and with its error.
    fn native_model_encode_downgrade(self, version: u32) -> (r: Result<Vec<u8>, Error>)
        ensures
            exists|body: Result<Vec<u8>, Error>|
                {
                    &&& #[trigger] call_ensures(
                        Self::native_model_encode_downgrade_body,
                        (self, version),
                        body,
                    )
                    &&& match body {
                        Ok(body) => exists|id: u32|
                            {
                                &&& #[trigger] is_id_of::<Self>(id)
                                &&& sealed(r, id, version, body@)
                            },
                        Err(e) => r == Err::<Vec<u8>, Error>(e),
                    }
                },
            r matches Ok(packed) ==> packed@.len() >= HEADER_LEN && claimed_version(packed@)
                == version,
    {
        match self.native_model_encode_downgrade_body(version) {
            Ok(mut data) => {
                let id = Self::native_model_id();
                proof {
                    lemma_envelope_parts(id, version, data@);
                }
                Ok(native_model_encode(&mut data, id, version))
            },
            Err(e) => Err(e),
        }
    }
}

/// `id` is an identity that `M` gives for itself.
#[verifier::inline]
pub open spec fn is_id_of<M: Versioned>(id: u32) -> bool {
    call_ensures(M::native_model_id, (), id)
}

/// `version` is a version that `M` gives for itself.
#[verifier::inline]
pub open spec fn is_version_of<M: Versioned>(version: u32) -> bool {
    call_ensures(M::native_model_version, (), version)
}

/// `r` is a result of `M` reading the body `data` that claims the identity `id`.
#[verifier::inline]
pub open spec fn reads_body<M: Versioned>(data: Vec<u8>, id: u32, r: DecodeResult<M>) -> bool {
    call_ensures(M::native_model_decode_body, (data, id), r)
}

/// `r` is a result of `M` writing the body of `model`.
#[verifier::inline]
pub open spec fn writes_body<M: Versioned>(model: &M, r: EncodeResult<Vec<u8>>) -> bool {
    call_ensures(M::native_model_encode_body, (model,), r)
}

/// `r` is a result of `M` decoding the body `data` of the version `version`
/// that claims the identity `id`.
#[verifier::inline]
pub open spec fn upgrades_body<M: Model>(
    data: Vec<u8>,
    id: u32,
    version: u32,
    r: Result<M, Error>,
) -> bool {
    call_ensures(M::native_model_decode_upgrade_body, (data, id, version), r)
}

/// `r` is a result of `M` writing the body of `model` as the version
/// `version` has it.
#[verifier::inline]
pub open spec fn downgrades_body<M: Model>(
    model: M,
    version: u32,
    r: Result<Vec<u8>, Error>,
) -> bool {
    call_ensures(M::native_model_encode_downgrade_body, (model, version), r)
}

/// What decoding the envelope `data` as a value of `M` gives.
///
/// A buffer shorter than a header is refused. Else the result is one that
/// `M` gives for the body, the identity and the version of the envelope,
/// with that version beside the value.
pub open spec fn decode_spec<M: Model>(data: Seq<u8>, r: Result<(M, u32), Error>) -> bool {
    if data.len() < HEADER_LEN {
        r == Err::<(M, u32), Error>(Error::InvalidHeader)
    } else {
        exists|body: Vec<u8>, upgraded: Result<M, Error>|
            {
                &&& #[trigger] upgrades_body::<M>(
                    body,
                    claimed_id(data),
                    claimed_version(data),
                    upgraded,
                )
                &&& body@ == body_of(data)
                &&& r == with_version(upgraded, claimed_version(data))
            }
    }
}

/// What encoding `model` as an envelope of its own version gives: the
/// header with the identity and the version of `M`, then a body that `M`
/// writes; or the error with which `M` fails to write one.
pub open spec fn encode_spec<M: Model>(model: &M, r: Result<Vec<u8>, Error>) -> bool {
    exists|body: EncodeResult<Vec<u8>>|
        {
            &&& #[trigger] writes_body::<M>(model, body)
            &&& match body {
                Ok(body) => exists|id: u32, version: u32|
                    {
                        &&& #[trigger] is_id_of::<M>(id)
                        &&& #[trigger] is_version_of::<M>(version)
                        &&& sealed(r, id, version, body@)
                    },
                Err(e) => r == Err::<Vec<u8>, Error>(Error::EncodeBodyError(e)),
            }
        }
}

/// What encoding `model` as an envelope of the version `version` gives: the
/// header with the identity of `M` and the version asked for, then a body
/// that `M` writes for that version; or the error with which `M` fails to
/// write one.
pub open spec fn encode_downgrade_spec<M: Model>(
    model: M,
    version: u32,
    r: Result<Vec<u8>, Error>,
) -> bool {
    exists|body: Result<Vec<u8>, Error>|
        {
            &&& #[trigger] downgrades_body::<M>(model, version, body)
            &&& match body {
                Ok(body) => exists|id: u32|
                    {
                        &&& #[trigger] is_id_of::<M>(id)
                        &&& sealed(r, id, version, body@)
                    },
                Err(e) => r == Err::<Vec<u8>, Error>(e),
            }
        }
}

/// The result of decoding an envelope from the result of decoding its body:
/// the version that the envelope was written in stands beside the value.
pub open spec fn with_version<T>(upgraded: Result<T, Error>, version: u32) -> Result<
    (T, u32),
    Error,
> {
    match upgraded {
        Ok(value) => Ok((value, version)),
        Err(e) => Err(e),
    }
}

/// `r` is the envelope of `body` under the header for `id` and `version`.
pub open spec fn sealed(r: Result<Vec<u8>, Error>, id: u32, version: u32, body: Seq<u8>) -> bool {
    r matches Ok(packed) && packed@ == header_bytes(id, version) + body
}

} // verus!
