//! The [postcard](https://crates.io/crates/postcard) `1` crate as
//! body codec.

use vstd::prelude::*;
use postcard::Error as PostcardError;

verus! {

/// `postcard::Error`, the error of `postcard`: carried through, never
/// looked into.
#[verifier::external_type_specification]
#[verifier::external_body]
pub struct ExPostcardError(PostcardError);

/// Used to specify the `postcard` `1` crate for serialization and
/// deserialization.
///
/// `postcard` does not implement all `serde` features: errors may be
/// encountered when using this with some types.
pub struct PostCard;

impl PostCard {
    /// Serializes a value into bytes with `postcard::to_allocvec`. Whether
    /// and what it writes depends on the `Serialize` impl of `T`, so nothing
    /// is claimed of the result.
    #[verifier::external_body]
    pub fn encode<T: serde::Serialize>(obj: &T) -> (r: Result<Vec<u8>, PostcardError>) {
        postcard::to_allocvec(obj)
    }

    /// Deserializes a value from bytes with `postcard::from_bytes`; bytes
    /// left over are dropped. Whether and what it reads depends on the
    /// `Deserialize` impl of `T`, so nothing is claimed of the result.
    #[verifier::external_body]
    pub fn decode<T: for <'de>serde::Deserialize<'de>>(data: Vec<u8>) -> (r: Result<
        T,
        PostcardError,
    >) {
        postcard::from_bytes(&data)
    }
}

} // verus!
