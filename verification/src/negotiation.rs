//! Version negotiation: one step of the walk along the chain of versions,
//! for each way in which a version names the one before it.
//!
//! A version has no predecessor, or converts from and into its predecessor
//! without fail (`From`, `Into`), or converts with a possible failure
//! (`TryFrom`, `TryInto`). A model writes its
//! `native_model_decode_upgrade_body` and `native_model_encode_downgrade_body`
//! as one call of the function for its case; the step for the version before
//! is then taken by that version, down to the version asked for or to the
//! oldest.
//!
//! Each function here has a spec function of the same case that says what it
//! gives: `decode_upgrade_body_from` gives an `r` with `upgrade_from`, and so
//! on. A verified model hands that on in the `ensures` of its method.

use vstd::prelude::*;
use anyhow::Error as AnyhowError;
use crate::error::{
    cause_of, is_cause_of, is_text_of, text_of, DecodeResult, DowngradeError, EncodeResult, Error,
    UpgradeError,
};
use crate::model::{
    downgrades_body, is_version_of, reads_body, upgrades_body, writes_body, Model, Versioned,
};

verus! {

/// The result of a step that reads a body of its own version, from the
/// result of the model's body method.
pub open spec fn body_decoded<M>(decoded: DecodeResult<M>) -> Result<M, Error> {
    match decoded {
        Ok(value) => Ok(value),
        Err(e) => Err(Error::DecodeBodyError(e)),
    }
}

/// The result of a step that writes a body of its own version, from the
/// result of the model's body method.
pub open spec fn body_encoded(encoded: EncodeResult<Vec<u8>>) -> Result<Vec<u8>, Error> {
    match encoded {
        Ok(body) => Ok(body),
        Err(e) => Err(Error::EncodeBodyError(e)),
    }
}

/// `r` is what a conversion that gave `converted` makes of an upgrade step:
/// the converted value, or an upgrade error that holds the text of the
/// conversion's error and that error itself as its cause.
pub open spec fn upgrade_converted_spec<M, E: core::fmt::Display + Into<AnyhowError>>(
    converted: Result<M, E>,
    r: Result<M, Error>,
) -> bool {
    match converted {
        Ok(value) => r == Ok::<M, Error>(value),
        Err(e) => exists|msg: String, source: AnyhowError|
            #![trigger is_text_of(&e, msg), is_cause_of(e, source)]
            is_text_of(&e, msg) && is_cause_of(e, source) && r == Err::<M, Error>(
                Error::UpgradeError(UpgradeError { msg, source }),
            ),
    }
}

/// `r` is what a conversion that gave `converted` makes of a downgrade
/// step: the converted value, or a downgrade error that holds the text of
/// the conversion's error and that error itself as its cause.
pub open spec fn downgrade_converted_spec<P, E: core::fmt::Display + Into<AnyhowError>>(
    converted: Result<P, E>,
    r: Result<P, Error>,
) -> bool {
    match converted {
        Ok(previous) => r == Ok::<P, Error>(previous),
        Err(e) => exists|msg: String, source: AnyhowError|
            #![trigger is_text_of(&e, msg), is_cause_of(e, source)]
            is_text_of(&e, msg) && is_cause_of(e, source) && r == Err::<P, Error>(
                Error::DowngradeError(DowngradeError { msg, source }),
            ),
    }
}

/// The step of decoding that every model takes for a body of its own
/// version `own` or of a newer one: its own is read with the model's body
/// method, a newer one is refused.
pub open spec fn upgrade_not_below<M: Versioned>(
    data: Vec<u8>,
    id: u32,
    version: u32,
    own: u32,
    r: Result<M, Error>,
) -> bool
    recommends
        version >= own,
{
    if version == own {
        exists|decoded: DecodeResult<M>| #[trigger]
            reads_body::<M>(data, id, decoded) && r == body_decoded(decoded)
    } else {
        r == Err::<M, Error>(Error::UpgradeNotSupported { from: version, to: own })
    }
}

/// The step of encoding that every model takes for its own version `own`
/// or a newer one: its own is written with the model's body method, a newer
/// one is refused.
pub open spec fn downgrade_not_below<M: Versioned>(
    model: M,
    version: u32,
    own: u32,
    r: Result<Vec<u8>, Error>,
) -> bool
    recommends
        version >= own,
{
    if version == own {
        exists|encoded: EncodeResult<Vec<u8>>| #[trigger]
            writes_body::<M>(&model, encoded) && r == body_encoded(encoded)
    } else {
        r == Err::<Vec<u8>, Error>(Error::DowngradeNotSupported { from: version, to: own })
    }
}

/// The step of decoding of a model without predecessor: nothing leads up
/// from an older version.
pub open spec fn upgrade_without_predecessor<M: Versioned>(
    data: Vec<u8>,
    id: u32,
    version: u32,
    r: Result<M, Error>,
) -> bool {
    exists|own: u32| #[trigger]
        is_version_of::<M>(own) && if version >= own {
            upgrade_not_below::<M>(data, id, version, own, r)
        } else {
            r == Err::<M, Error>(Error::UpgradeNotSupported { from: version, to: own })
        }
}

/// The step of decoding of a model that converts from `P` without fail: a
/// body of an older version gives what `P` makes of it, converted; where
/// `P` fails, its error.
pub open spec fn upgrade_from<M: Versioned + From<P>, P: Model>(
    data: Vec<u8>,
    id: u32,
    version: u32,
    r: Result<M, Error>,
) -> bool {
    exists|own: u32| #[trigger]
        is_version_of::<M>(own) && if version >= own {
            upgrade_not_below::<M>(data, id, version, own, r)
        } else {
            exists|older: Result<P, Error>| #[trigger]
                upgrades_body::<P>(data, id, version, older) && match older {
                    Ok(previous) => r matches Ok(value) && call_ensures(
                        <M as From<P>>::from,
                        (previous,),
                        value,
                    ),
                    Err(e) => r == Err::<M, Error>(e),
                }
        }
}

/// The step of decoding of a model that converts from `P` with a possible
/// failure: a body of an older version gives what `P` makes of it,
/// converted, or an upgrade error where the conversion fails; where `P`
/// fails, its error.
pub open spec fn upgrade_try_from<M: Versioned + TryFrom<P>, P: Model>(
    data: Vec<u8>,
    id: u32,
    version: u32,
    r: Result<M, Error>,
) -> bool where <M as TryFrom<P>>::Error: core::fmt::Display + Into<AnyhowError> {
    exists|own: u32| #[trigger]
        is_version_of::<M>(own) && if version >= own {
            upgrade_not_below::<M>(data, id, version, own, r)
        } else {
            exists|older: Result<P, Error>| #[trigger]
                upgrades_body::<P>(data, id, version, older) && match older {
                    Ok(previous) => exists|converted: Result<M, <M as TryFrom<P>>::Error>|
                        #[trigger] call_ensures(
                            <M as TryFrom<P>>::try_from,
                            (previous,),
                            converted,
                        ) && upgrade_converted_spec(converted, r),
                    Err(e) => r == Err::<M, Error>(e),
                }
        }
}

/// The step of encoding of a model without predecessor: nothing leads down
/// to an older version.
pub open spec fn downgrade_without_predecessor<M: Versioned>(
    model: M,
    version: u32,
    r: Result<Vec<u8>, Error>,
) -> bool {
    exists|own: u32| #[trigger]
        is_version_of::<M>(own) && if version >= own {
            downgrade_not_below::<M>(model, version, own, r)
        } else {
            r == Err::<Vec<u8>, Error>(Error::DowngradeNotSupported { from: version, to: own })
        }
}

/// The step of encoding of a model that converts into `P` without fail: for
/// an older version the value is converted, and the result is what `P`
/// gives for the converted value.
pub open spec fn downgrade_into<M: Versioned + Into<P>, P: Model>(
    model: M,
    version: u32,
    r: Result<Vec<u8>, Error>,
) -> bool {
    exists|own: u32| #[trigger]
        is_version_of::<M>(own) && if version >= own {
            downgrade_not_below::<M>(model, version, own, r)
        } else {
            exists|previous: P| #[trigger]
                call_ensures(<M as Into<P>>::into, (model,), previous) && downgrades_body::<P>(
                    previous,
                    version,
                    r,
                )
        }
}

/// The step of encoding of a model that converts into `P` with a possible
/// failure: for an older version the value is converted, and the result is
/// what `P` gives for the converted value, or a downgrade error where the
/// conversion fails.
pub open spec fn downgrade_try_into<M: Versioned + TryInto<P>, P: Model>(
    model: M,
    version: u32,
    r: Result<Vec<u8>, Error>,
) -> bool where <M as TryInto<P>>::Error: core::fmt::Display + Into<AnyhowError> {
    exists|own: u32| #[trigger]
        is_version_of::<M>(own) && if version >= own {
            downgrade_not_below::<M>(model, version, own, r)
        } else {
            exists|converted: Result<P, <M as TryInto<P>>::Error>| #[trigger]
                call_ensures(<M as TryInto<P>>::try_into, (model,), converted) && match converted {
                    Ok(previous) => downgrades_body::<P>(previous, version, r),
                    Err(e) => exists|msg: String, source: AnyhowError|
                        #![trigger is_text_of(&e, msg), is_cause_of(e, source)]
                        is_text_of(&e, msg) && is_cause_of(e, source) && r == Err::<
                            Vec<u8>,
                            Error,
                        >(Error::DowngradeError(DowngradeError { msg, source })),
                }
        }
}

/// The outcome of an upgrade step from the outcome of the conversion: the
/// converted value, or an upgrade error that carries the text of the
/// conversion's error and the error itself.
pub fn upgrade_converted<M, E: core::fmt::Display + Into<AnyhowError>>(converted: Result<M, E>) -> (r: Result<M, Error>)
    ensures
        upgrade_converted_spec(converted, r),
{
    match converted {
        Ok(value) => Ok(value),
        Err(e) => {
            let msg = text_of(&e);
            Err(Error::UpgradeError(UpgradeError { msg, source: cause_of(e) }))
        },
    }
}

/// The outcome of a downgrade step from the outcome of the conversion: the
/// converted value, or a downgrade error that carries the text of the
/// conversion's error and the error itself.
pub fn downgrade_converted<P, E: core::fmt::Display + Into<AnyhowError>>(converted: Result<P, E>) -> (r: Result<
    P,
    Error,
>)
    ensures
        downgrade_converted_spec(converted, r),
{
    match converted {
        Ok(previous) => Ok(previous),
        Err(e) => {
            let msg = text_of(&e);
            Err(Error::DowngradeError(DowngradeError { msg, source: cause_of(e) }))
        },
    }
}

/// Decoding for a model without predecessor: only a body of the model's own
/// version is read.
pub fn decode_upgrade_body<M: Versioned>(data: Vec<u8>, id: u32, version: u32) -> (r: Result<M, Error>)
    ensures
        upgrade_without_predecessor::<M>(data, id, version, r),
{
    let own = M::native_model_version();
    if version == own {
        match M::native_model_decode_body(data, id) {
            Ok(value) => Ok(value),
            Err(e) => Err(Error::DecodeBodyError(e)),
        }
    } else {
        Err(Error::UpgradeNotSupported { from: version, to: own })
    }
}

/// Decoding for a model that converts from `P` without fail: a body of an
/// older version is decoded by `P`, and the value converted.
pub fn decode_upgrade_body_from<M: Versioned + From<P>, P: Model>(
    data: Vec<u8>,
    id: u32,
    version: u32,
) -> (r: Result<M, Error>)
    ensures
        upgrade_from::<M, P>(data, id, version, r),
{
    let own = M::native_model_version();
    if version == own {
        match M::native_model_decode_body(data, id) {
            Ok(value) => Ok(value),
            Err(e) => Err(Error::DecodeBodyError(e)),
        }
    } else if version < own {
        match P::native_model_decode_upgrade_body(data, id, version) {
            Ok(previous) => Ok(M::from(previous)),
            Err(e) => Err(e),
        }
    } else {
        Err(Error::UpgradeNotSupported { from: version, to: own })
    }
}

/// Decoding for a model that converts from `P` with a possible failure: a
/// body of an older version is decoded by `P`, and the value converted; a
/// failed conversion is an upgrade error.
pub fn decode_upgrade_body_try_from<M: Versioned + TryFrom<P>, P: Model>(
    data: Vec<u8>,
    id: u32,
    version: u32,
) -> (r: Result<M, Error>) where <M as TryFrom<P>>::Error: core::fmt::Display + Into<AnyhowError>
    ensures
        upgrade_try_from::<M, P>(data, id, version, r),
{
    let own = M::native_model_version();
    if version == own {
        match M::native_model_decode_body(data, id) {
            Ok(value) => Ok(value),
            Err(e) => Err(Error::DecodeBodyError(e)),
        }
    } else if version < own {
        match P::native_model_decode_upgrade_body(data, id, version) {
            Ok(previous) => upgrade_converted(M::try_from(previous)),
            Err(e) => Err(e),
        }
    } else {
        Err(Error::UpgradeNotSupported { from: version, to: own })
    }
}

/// Encoding for a model without predecessor: only a body of the model's own
/// version is written.
pub fn encode_downgrade_body<M: Versioned>(model: M, version: u32) -> (r: Result<Vec<u8>, Error>)
    ensures
        downgrade_without_predecessor::<M>(model, version, r),
{
    let own = M::native_model_version();
    if version == own {
        match model.native_model_encode_body() {
            Ok(body) => Ok(body),
            Err(e) => Err(Error::EncodeBodyError(e)),
        }
    } else {
        Err(Error::DowngradeNotSupported { from: version, to: own })
    }
}

/// Encoding for a model that converts into `P` without fail: for an older
/// version the value is converted, and `P` writes the body.
pub fn encode_downgrade_body_from<M: Versioned + Into<P>, P: Model>(model: M, version: u32) -> (r:
    Result<Vec<u8>, Error>)
    ensures
        downgrade_into::<M, P>(model, version, r),
{
    let own = M::native_model_version();
    if version == own {
        match model.native_model_encode_body() {
            Ok(body) => Ok(body),
            Err(e) => Err(Error::EncodeBodyError(e)),
        }
    } else if version < own {
        let previous: P = model.into();
        previous.native_model_encode_downgrade_body(version)
    } else {
        Err(Error::DowngradeNotSupported { from: version, to: own })
    }
}

/// Encoding for a model that converts into `P` with a possible failure: for
/// an older version the value is converted, and `P` writes the body; a
/// failed conversion is a downgrade error.
pub fn encode_downgrade_body_try_from<M: Versioned + TryInto<P>, P: Model>(
    model: M,
    version: u32,
) -> (r: Result<Vec<u8>, Error>) where <M as TryInto<P>>::Error: core::fmt::Display + Into<AnyhowError>
    ensures
        downgrade_try_into::<M, P>(model, version, r),
{
    let own = M::native_model_version();
    if version == own {
        match model.native_model_encode_body() {
            Ok(body) => Ok(body),
            Err(e) => Err(Error::EncodeBodyError(e)),
        }
    } else if version < own {
        match downgrade_converted(model.try_into()) {
            Ok(previous) => previous.native_model_encode_downgrade_body(version),
            Err(e) => Err(e),
        }
    } else {
        Err(Error::DowngradeNotSupported { from: version, to: own })
    }
}

} // verus!
