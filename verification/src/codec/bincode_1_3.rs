//! The [bincode](https://crates.io/crates/bincode/1.3.3) `1.3` crate as body
//! codec.

use vstd::prelude::*;
use bincode::ErrorKind as BincodeErrorKind;

verus! {

/// `bincode::ErrorKind`, the error of `bincode`: carried through, never
/// looked into.
#[verifier::external_type_specification]
#[verifier::external_body]
pub struct ExBincodeErrorKind(BincodeErrorKind);

/// Used to specify the `bincode` `1.3` crate for serialization and
/// deserialization.
///
/// `bincode` does not implement all `serde` features: errors may be
/// encountered when using this with some types.
#[derive(Default)]
pub struct Bincode;

impl Bincode {
    /// Serializes a value into bytes with `bincode::serialize`: fixed-width
    /// integers, little-endian. Whether and what it writes depends on the
    /// `Serialize` impl of `T`, so nothing is claimed of the result.
    #[verifier::external_body]
    pub fn encode<T: serde::Serialize>(obj: &T) -> (r: Result<Vec<u8>, Box<BincodeErrorKind>>) {
        bincode::serialize(obj)
    }

    /// Deserializes a value from bytes with `bincode::deserialize`; bytes
    /// left over are allowed. Whether and what it reads depends on the
    /// `Deserialize` impl of `T`, so nothing is claimed of the result.
    #[verifier::external_body]
    pub fn decode<T: for <'de>serde::Deserialize<'de>>(data: Vec<u8>) -> (r: Result<
        T,
        Box<BincodeErrorKind>,
    >) {
        bincode::deserialize(&data[..])
    }
}

} // verus!
