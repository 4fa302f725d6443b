//! The [rmp-serde](https://crates.io/crates/rmp-serde) `1.3` crate as
//! body codec.

use vstd::prelude::*;
use rmp_serde::decode::Error as RmpDecodeError;
use rmp_serde::encode::Error as RmpEncodeError;

verus! {

/// `rmp_serde::encode::Error`, the error of serializing with `rmp-serde`:
/// carried through, never looked into.
#[verifier::external_type_specification]
#[verifier::external_body]
pub struct ExRmpEncodeError(RmpEncodeError);

/// `rmp_serde::decode::Error`, the error of deserializing with
/// `rmp-serde`: carried through, never looked into.
#[verifier::external_type_specification]
#[verifier::external_body]
pub struct ExRmpDecodeError(RmpDecodeError);

/// Used to specify the `rmp-serde` `1.3` crate for serialization and
/// deserialization, using arrays to serialize structs.
///
/// Do not use this if you plan to use serde features that skip serializing
/// fields, use [`RmpSerdeNamed`] instead.
pub struct RmpSerde;

impl RmpSerde {
    /// Serializes a value into MessagePack bytes with
    /// `rmp_serde::encode::to_vec`, structs as arrays. Whether and what it
    /// writes depends on the `Serialize` impl of `T`, so nothing is claimed
    /// of the result.
    #[verifier::external_body]
    pub fn encode<T: serde::Serialize>(obj: &T) -> (r: Result<Vec<u8>, RmpEncodeError>) {
        rmp_serde::encode::to_vec(obj)
    }

    /// Deserializes a value from MessagePack bytes with
    /// `rmp_serde::decode::from_slice`. Whether and what it reads depends on
    /// the `Deserialize` impl of `T`, so nothing is claimed of the result.
    #[verifier::external_body]
    pub fn decode<T: for <'de>serde::Deserialize<'de>>(data: Vec<u8>) -> (r: Result<
        T,
        RmpDecodeError,
    >) {
        rmp_serde::decode::from_slice(&data)
    }
}

/// Used to specify the `rmp-serde` `1.3` crate for serialization and
/// deserialization, using maps to serialize structs.
pub struct RmpSerdeNamed;

impl RmpSerdeNamed {
    /// Serializes a value into MessagePack bytes with
    /// `rmp_serde::encode::to_vec_named`, structs as maps that hold the
    /// field names. Whether and what it writes depends on the `Serialize`
    /// impl of `T`, so nothing is claimed of the result.
    #[verifier::external_body]
    pub fn encode<T: serde::Serialize>(obj: &T) -> (r: Result<Vec<u8>, RmpEncodeError>) {
        rmp_serde::encode::to_vec_named(obj)
    }

    /// Deserializes a value from MessagePack bytes with
    /// `rmp_serde::decode::from_slice`, which reads a struct from an array as
    /// well as from a map. Whether and what it reads depends on the
    /// `Deserialize` impl of `T`, so nothing is claimed of the result.
    #[verifier::external_body]
    pub fn decode<T: for <'de>serde::Deserialize<'de>>(data: Vec<u8>) -> (r: Result<
        T,
        RmpDecodeError,
    >) {
        rmp_serde::decode::from_slice(&data)
    }
}

} // verus!
