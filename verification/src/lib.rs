//! A thin envelope around serialized data: a fixed header that carries the
//! identity and the schema version of a model, followed by the body bytes of
//! a pluggable codec.
//!
//! - [`encode`] writes a value as an envelope of its own version.
//! - [`decode`] reads an envelope of this or an older version, and gives the
//!   version found with the value.
//! - [`encode_downgrade`] writes a value as an envelope of an older version,
//!   so that an application that knows only that version can read it.
//!
//! A type takes part by implementing [`Versioned`] and [`Model`]. Each of
//! its methods is one call: the body methods hand the result of a codec to
//! the functions of [`codec`], and the two methods that walk the chain of
//! versions call the function of [`negotiation`] for the way in which the
//! type names the version before it.
//!
//! ```ignore
//! struct DotV1(u32, u32);
//! struct DotV2 { name: String, x: u64, y: u64 }
//!
//! impl From<DotV1> for DotV2 { /* .. */ }
//! impl From<DotV2> for DotV1 { /* .. */ }
//!
//! impl Versioned for DotV2 {
//!     fn native_model_id() -> u32 { 1 }
//!     fn native_model_id_str() -> &'static str { "1" }
//!     fn native_model_version() -> u32 { 2 }
//!     fn native_model_version_str() -> &'static str { "2" }
//!
//!     fn native_model_decode_body(data: Vec<u8>, id: u32) -> DecodeResult<Self> {
//!         check_model_id(id, Self::native_model_id())?;
//!         decode_body_result(Bincode::decode(data))
//!     }
//!
//!     fn native_model_encode_body(&self) -> EncodeResult<Vec<u8>> {
//!         encode_body_result(Bincode::encode(self))
//!     }
//! }
//!
//! impl Model for DotV2 {
//!     fn native_model_decode_upgrade_body(data: Vec<u8>, id: u32, version: u32)
//!         -> Result<Self, Error>
//!     {
//!         decode_upgrade_body_from::<DotV2, DotV1>(data, id, version)
//!     }
//!
//!     fn native_model_encode_downgrade_body(self, version: u32) -> Result<Vec<u8>, Error> {
//!         encode_downgrade_body_from::<DotV2, DotV1>(self, version)
//!     }
//! }
//!
//! // An application that knows DotV1 only wrote `bytes`.
//! let (mut dot, source_version) = native_model::decode::<DotV2>(bytes)?;
//! dot.name = "Dot".to_string();
//! // It can read what comes back.
//! let bytes = native_model::encode_downgrade(dot, source_version)?;
//! ```
//!
//! The contracts of this crate speak of what the methods of a model give,
//! whatever that is; [`laws`] says what follows for a model that keeps the
//! rules of its case.

pub mod codec;
pub mod error;
pub mod header;
pub mod laws;
pub mod model;
pub mod negotiation;
pub mod wrapper;

pub use codec::{bincode_1_3, postcard_1_0, rmp_serde_1_3, Decode, Encode};
pub use error::{
    DecodeBodyError, DecodeResult, DowngradeError, EncodeBodyError, EncodeResult, Error,
    UpgradeError,
};
pub use header::Header;
pub use model::{Model, Versioned};
pub use wrapper::{native_model_encode, Wrapper};

use vstd::prelude::*;
use header::{claimed_version, HEADER_LEN};
use model::{decode_spec, encode_downgrade_spec, encode_spec, writes_body};

verus! {

/// Encodes a model into an envelope: the header with the model's identity
/// and version, then the body that the model writes. Fails exactly where the
/// model fails to write its body.
pub fn encode<T: Model>(model: &T) -> (r: Result<Vec<u8>, Error>)
    ensures
        encode_spec(model, r),
        r matches Ok(packed) ==> exists|body: Vec<u8>| #[trigger]
            writes_body::<T>(model, Ok(body)) && packed@.len() == HEADER_LEN + body@.len(),
{
    T::native_model_encode(model)
}

/// Encodes a model into an envelope of the version `version`, which is the
/// model's own or an older one: the value is converted down the chain of
/// versions, the body written by the version asked for, and the header names
/// that version.
pub fn encode_downgrade<T: Model>(model: T, version: u32) -> (r: Result<Vec<u8>, Error>)
    ensures
        encode_downgrade_spec(model, version, r),
        r matches Ok(packed) ==> packed@.len() >= HEADER_LEN && claimed_version(packed@)
            == version,
{
    T::native_model_encode_downgrade(model, version)
}

/// Decodes an envelope into a model and the version that the envelope was
/// written in. An envelope of an older version is read by that version and
/// the value converted up the chain; one of a newer version is refused, and
/// so is a buffer shorter than a header.
pub fn decode<T: Model>(data: Vec<u8>) -> (r: Result<(T, u32), Error>)
    ensures
        decode_spec::<T>(data@, r),
        data@.len() < HEADER_LEN ==> r == Err::<(T, u32), Error>(Error::InvalidHeader),
        r matches Ok((_, version)) ==> data@.len() >= HEADER_LEN && version == claimed_version(
            data@,
        ),
{
    T::native_model_decode(data)
}

} // verus!
