//! The errors of the envelope.
//!
//! An error that comes from a codec or from a conversion holds the text of
//! that error and, as its cause, the error itself inside an `anyhow::Error`.

use vstd::prelude::*;
use vstd::std_specs::convert::FromSpecImpl;
use anyhow::Error as AnyhowError;

verus! {

/// `anyhow::Error`, which holds the error of a codec or of a conversion as
/// the cause of an error of this crate: carried through, never looked into.
#[verifier::external_type_specification]
#[verifier::external_body]
pub struct ExAnyhowError(AnyhowError);

/// Result of decoding a body with the codec of a model.
pub type DecodeResult<T> = Result<T, DecodeBodyError>;

/// Result of encoding a body with the codec of a model.
pub type EncodeResult<T> = Result<T, EncodeBodyError>;

/// The codec could not read a body, or the body is not of this model.
#[derive(Debug)]
pub enum DecodeBodyError {
    /// The claimed identity is not the identity of the decoding model.
    MismatchedModelId,
    /// The codec failed; `msg` is what it reported, `source` its error.
    DecodeError { msg: String, source: AnyhowError },
}

/// The codec could not write a body; `msg` is what it reported, `source`
/// its error.
#[derive(Debug)]
pub struct EncodeBodyError {
    pub msg: String,
    pub source: AnyhowError,
}

/// A conversion from the previous version failed; `msg` is what it reported,
/// `source` its error.
#[derive(Debug)]
pub struct UpgradeError {
    pub msg: String,
    pub source: AnyhowError,
}

/// A conversion into the previous version failed; `msg` is what it reported,
/// `source` its error.
#[derive(Debug)]
pub struct DowngradeError {
    pub msg: String,
    pub source: AnyhowError,
}

/// Every way in which encoding or decoding an envelope can fail.
#[derive(Debug)]
pub enum Error {
    /// The buffer is shorter than a header.
    InvalidHeader,
    /// The envelope could not be decoded.
    DecodeError,
    /// The body could not be read, or claims another identity.
    DecodeBodyError(DecodeBodyError),
    /// The body could not be written.
    EncodeBodyError(EncodeBodyError),
    /// A conversion from the previous version failed.
    UpgradeError(UpgradeError),
    /// No chain of conversions leads from the version `from` up to the
    /// version `to`.
    UpgradeNotSupported { from: u32, to: u32 },
    /// A conversion into the previous version failed.
    DowngradeError(DowngradeError),
    /// No chain of conversions leads down to the version `from` from the
    /// version `to`.
    DowngradeNotSupported { from: u32, to: u32 },
    /// The identity found is not the one expected.
    WrongTypeId { expected: u32, actual: u32 },
}

/// The text of an error of a codec or of a conversion, as its `Display`
/// impl writes it. Calls `std::fmt::Display::fmt` through `format!`; what the
/// text says is up to that impl, so nothing is claimed of it.
#[verifier::external_body]
fn describe<E: core::fmt::Display>(e: &E) -> (msg: String) {
    format!("{}", e)
}

/// `msg` is a text that the `Display` impl of `e` writes for it.
pub closed spec fn is_text_of<E: core::fmt::Display>(e: &E, msg: String) -> bool {
    call_ensures(describe::<E>, (e,), msg)
}

/// The text of an error of a codec or of a conversion.
pub(crate) fn text_of<E: core::fmt::Display>(e: &E) -> (msg: String)
    ensures
        is_text_of(e, msg),
{
    describe(e)
}

/// An error of a codec or of a conversion as the cause of an error of this
/// crate. Calls `std::convert::Into::into`; for an error type of std's
/// `Error` trait that is `anyhow`'s `From`, which keeps the error itself
/// inside the `anyhow::Error` and may record a backtrace beside it. What
/// else an `Into` impl does is up to that impl, so nothing is claimed of the
/// result.
#[verifier::external_body]
fn wrap<E: Into<AnyhowError>>(e: E) -> (source: AnyhowError) {
    e.into()
}

/// `source` is what converting `e` into an `anyhow::Error` gives: the cause
/// that an error of this crate carries for `e`.
pub closed spec fn is_cause_of<E: Into<AnyhowError>>(e: E, source: AnyhowError) -> bool {
    call_ensures(wrap::<E>, (e,), source)
}

/// The error of a codec or of a conversion, as a cause.
pub(crate) fn cause_of<E: Into<AnyhowError>>(e: E) -> (source: AnyhowError)
    ensures
        is_cause_of(e, source),
{
    wrap(e)
}

impl From<DecodeBodyError> for Error {
    fn from(e: DecodeBodyError) -> (r: Error) {
        Error::DecodeBodyError(e)
    }
}

impl FromSpecImpl<DecodeBodyError> for Error {
    open spec fn obeys_from_spec() -> bool {
        true
    }

    open spec fn from_spec(e: DecodeBodyError) -> Error {
        Error::DecodeBodyError(e)
    }
}

impl From<EncodeBodyError> for Error {
    fn from(e: EncodeBodyError) -> (r: Error) {
        Error::EncodeBodyError(e)
    }
}

impl FromSpecImpl<EncodeBodyError> for Error {
    open spec fn obeys_from_spec() -> bool {
        true
    }

    open spec fn from_spec(e: EncodeBodyError) -> Error {
        Error::EncodeBodyError(e)
    }
}

impl From<UpgradeError> for Error {
    fn from(e: UpgradeError) -> (r: Error) {
        Error::UpgradeError(e)
    }
}

impl FromSpecImpl<UpgradeError> for Error {
    open spec fn obeys_from_spec() -> bool {
        true
    }

    open spec fn from_spec(e: UpgradeError) -> Error {
        Error::UpgradeError(e)
    }
}

impl From<DowngradeError> for Error {
    fn from(e: DowngradeError) -> (r: Error) {
        Error::DowngradeError(e)
    }
}

impl FromSpecImpl<DowngradeError> for Error {
    open spec fn obeys_from_spec() -> bool {
        true
    }

    open spec fn from_spec(e: DowngradeError) -> Error {
        Error::DowngradeError(e)
    }
}

} // verus!
