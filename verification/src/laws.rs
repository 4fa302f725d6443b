//! What holds of encoding and decoding for every model that keeps the rules.
//!
//! A model is written by the user, so the rules are stated here as
//! predicates over what its methods give, and each law asks for the ones it
//! needs. A model whose methods are written with the functions of
//! [`crate::negotiation`] and [`crate::codec`] keeps the rules of its case
//! as far as its codec and its conversions allow.

use vstd::prelude::*;
use anyhow::Error as AnyhowError;
use crate::error::{
    is_cause_of, is_text_of, DecodeBodyError, DecodeResult, DowngradeError, Error, UpgradeError,
};
use crate::header::{body_of, claimed_id, claimed_version, lemma_envelope_parts, HEADER_LEN};
use crate::model::{
    decode_spec, downgrades_body, encode_downgrade_spec, encode_spec, is_id_of, is_version_of,
    reads_body, sealed, upgrades_body, writes_body, Model, Versioned,
};
use crate::negotiation::{
    downgrade_into, downgrade_not_below, downgrade_try_into, downgrade_without_predecessor,
    upgrade_from, upgrade_not_below, upgrade_try_from, upgrade_without_predecessor,
};

verus! {

/// `M` gives one identity and one version, whenever it is asked.
pub open spec fn has_constant_identity<M: Versioned>() -> bool {
    &&& forall|a: u32, b: u32| #[trigger]
        is_id_of::<M>(a) && #[trigger] is_id_of::<M>(b) ==> a == b
    &&& forall|a: u32, b: u32| #[trigger]
        is_version_of::<M>(a) && #[trigger] is_version_of::<M>(b) ==> a == b
}

/// `M` refuses a body that claims an identity other than its own.
pub open spec fn checks_model_id<M: Versioned>() -> bool {
    forall|data: Vec<u8>, id: u32, own: u32, decoded: DecodeResult<M>| #[trigger]
        reads_body::<M>(data, id, decoded) && #[trigger] is_id_of::<M>(own) && id != own
            ==> decoded == Err::<M, DecodeBodyError>(DecodeBodyError::MismatchedModelId)
}

/// `M` reads `model` back from every body that it writes for `model`, when
/// the body claims `M`'s identity.
pub open spec fn body_round_trips<M: Versioned>(model: M) -> bool {
    forall|written: Vec<u8>, data: Vec<u8>, id: u32, decoded: DecodeResult<M>| #[trigger]
        writes_body::<M>(&model, Ok(written)) && #[trigger] reads_body::<M>(data, id, decoded)
            && data@ == written@ && is_id_of::<M>(id) ==> decoded == Ok::<M, DecodeBodyError>(
            model,
        )
}

/// `M` decodes a body of its own version with its body method, and refuses
/// a body of a newer version. This much is common to the three ways of
/// naming a predecessor.
pub open spec fn decodes_not_below<M: Model>() -> bool {
    forall|data: Vec<u8>, id: u32, version: u32, r: Result<M, Error>| #[trigger]
        upgrades_body::<M>(data, id, version, r) ==> exists|own: u32| #[trigger]
            is_version_of::<M>(own) && (version >= own ==> upgrade_not_below::<M>(
                data,
                id,
                version,
                own,
                r,
            ))
}

/// `M` writes a body of its own version with its body method, and refuses
/// to write one of a newer version. This much is common to the three ways
/// of naming a predecessor.
pub open spec fn encodes_not_below<M: Model>() -> bool {
    forall|model: M, version: u32, r: Result<Vec<u8>, Error>| #[trigger]
        downgrades_body::<M>(model, version, r) ==> exists|own: u32| #[trigger]
            is_version_of::<M>(own) && (version >= own ==> downgrade_not_below::<M>(
                model,
                version,
                own,
                r,
            ))
}

/// `M` decodes as a model without predecessor does.
pub open spec fn decodes_without_predecessor<M: Model>() -> bool {
    forall|data: Vec<u8>, id: u32, version: u32, r: Result<M, Error>| #[trigger]
        upgrades_body::<M>(data, id, version, r) ==> upgrade_without_predecessor::<M>(
            data,
            id,
            version,
            r,
        )
}

/// `M` decodes as a model that converts from `P` without fail does.
pub open spec fn decodes_from<M: Model + From<P>, P: Model>() -> bool {
    forall|data: Vec<u8>, id: u32, version: u32, r: Result<M, Error>| #[trigger]
        upgrades_body::<M>(data, id, version, r) ==> upgrade_from::<M, P>(data, id, version, r)
}

/// `M` decodes as a model that converts from `P` with a possible failure
/// does.
pub open spec fn decodes_try_from<M: Model + TryFrom<P>, P: Model>() -> bool where
    <M as TryFrom<P>>::Error: core::fmt::Display + Into<AnyhowError>,
 {
    forall|data: Vec<u8>, id: u32, version: u32, r: Result<M, Error>| #[trigger]
        upgrades_body::<M>(data, id, version, r) ==> upgrade_try_from::<M, P>(
            data,
            id,
            version,
            r,
        )
}

/// `M` encodes as a model without predecessor does.
pub open spec fn encodes_without_predecessor<M: Model>() -> bool {
    forall|model: M, version: u32, r: Result<Vec<u8>, Error>| #[trigger]
        downgrades_body::<M>(model, version, r) ==> downgrade_without_predecessor::<M>(
            model,
            version,
            r,
        )
}

/// `M` encodes as a model that converts into `P` without fail does.
pub open spec fn encodes_into<M: Model + Into<P>, P: Model>() -> bool {
    forall|model: M, version: u32, r: Result<Vec<u8>, Error>| #[trigger]
        downgrades_body::<M>(model, version, r) ==> downgrade_into::<M, P>(model, version, r)
}

/// `M` encodes as a model that converts into `P` with a possible failure
/// does.
pub open spec fn encodes_try_into<M: Model + TryInto<P>, P: Model>() -> bool where
    <M as TryInto<P>>::Error: core::fmt::Display + Into<AnyhowError>,
 {
    forall|model: M, version: u32, r: Result<Vec<u8>, Error>| #[trigger]
        downgrades_body::<M>(model, version, r) ==> downgrade_try_into::<M, P>(model, version, r)
}

/// Round trip: decoding the envelope of a value at the value's own version
/// gives the value back, with that version.
pub proof fn lemma_round_trip<M: Model>(
    model: M,
    version: u32,
    packed: Vec<u8>,
    back: Result<(M, u32), Error>,
)
    requires
        has_constant_identity::<M>(),
        decodes_not_below::<M>(),
        body_round_trips(model),
        is_version_of::<M>(version),
        encode_spec(&model, Ok(packed)),
        decode_spec::<M>(packed@, back),
    ensures
        back == Ok::<(M, u32), Error>((model, version)),
{
    let written = choose|written: Vec<u8>|
        writes_body::<M>(&model, Ok(written)) && exists|id: u32, v: u32|
            is_id_of::<M>(id) && is_version_of::<M>(v) && sealed(Ok(packed), id, v, written@);
    let (id, v) = choose|id: u32, v: u32|
        is_id_of::<M>(id) && is_version_of::<M>(v) && sealed(Ok(packed), id, v, written@);
    lemma_envelope_parts(id, v, written@);
}

/// No skipping ahead: an envelope of a version newer than the model's own
/// is refused, whatever it holds.
pub proof fn lemma_newer_version_refused<M: Model>(
    own: u32,
    packed: Seq<u8>,
    back: Result<(M, u32), Error>,
)
    requires
        has_constant_identity::<M>(),
        decodes_not_below::<M>(),
        is_version_of::<M>(own),
        packed.len() >= HEADER_LEN,
        claimed_version(packed) > own,
        decode_spec::<M>(packed, back),
    ensures
        back == Err::<(M, u32), Error>(
            Error::UpgradeNotSupported { from: claimed_version(packed), to: own },
        ),
{
}

/// No writing ahead: a value is not written as a version newer than its
/// own.
pub proof fn lemma_newer_version_not_written<M: Model>(
    model: M,
    own: u32,
    version: u32,
    r: Result<Vec<u8>, Error>,
)
    requires
        has_constant_identity::<M>(),
        encodes_not_below::<M>(),
        is_version_of::<M>(own),
        version > own,
        encode_downgrade_spec(model, version, r),
    ensures
        r == Err::<Vec<u8>, Error>(Error::DowngradeNotSupported { from: version, to: own }),
{
}

/// The oldest version ends the walk: a model without predecessor reads no
/// envelope of a version older than its own, and writes none.
pub proof fn lemma_nothing_below_the_oldest<M: Model>(
    model: M,
    own: u32,
    version: u32,
    packed: Seq<u8>,
    back: Result<(M, u32), Error>,
    r: Result<Vec<u8>, Error>,
)
    requires
        has_constant_identity::<M>(),
        decodes_without_predecessor::<M>(),
        encodes_without_predecessor::<M>(),
        is_version_of::<M>(own),
        version < own,
        packed.len() >= HEADER_LEN,
        claimed_version(packed) == version,
        decode_spec::<M>(packed, back),
        encode_downgrade_spec(model, version, r),
    ensures
        back == Err::<(M, u32), Error>(Error::UpgradeNotSupported { from: version, to: own }),
        r == Err::<Vec<u8>, Error>(Error::DowngradeNotSupported { from: version, to: own }),
{
}

/// Identity mismatch: an envelope of the model's own version that claims
/// another identity is refused by the model's body method.
pub proof fn lemma_wrong_identity_refused<M: Model>(
    id: u32,
    own: u32,
    packed: Seq<u8>,
    back: Result<(M, u32), Error>,
)
    requires
        has_constant_identity::<M>(),
        decodes_not_below::<M>(),
        checks_model_id::<M>(),
        is_id_of::<M>(id),
        is_version_of::<M>(own),
        packed.len() >= HEADER_LEN,
        claimed_version(packed) == own,
        claimed_id(packed) != id,
        decode_spec::<M>(packed, back),
    ensures
        back == Err::<(M, u32), Error>(
            Error::DecodeBodyError(DecodeBodyError::MismatchedModelId),
        ),
{
}

/// `M` refuses every body with the bytes `body` of the version `version`
/// because it claims the identity `id`.
pub open spec fn refuses_identity<M: Model>(body: Seq<u8>, id: u32, version: u32) -> bool {
    forall|data: Vec<u8>, r: Result<M, Error>| #[trigger]
        upgrades_body::<M>(data, id, version, r) && data@ == body ==> r == Err::<M, Error>(
            Error::DecodeBodyError(DecodeBodyError::MismatchedModelId),
        )
}

/// Identity mismatch, where the walk ends: the version that a body was
/// written in refuses the body when it claims another identity.
pub proof fn lemma_wrong_identity_refused_where_read<M: Model>(
    body: Seq<u8>,
    id: u32,
    own_id: u32,
    own: u32,
)
    requires
        has_constant_identity::<M>(),
        decodes_not_below::<M>(),
        checks_model_id::<M>(),
        is_id_of::<M>(own_id),
        is_version_of::<M>(own),
        id != own_id,
    ensures
        refuses_identity::<M>(body, id, own),
{
}

/// Identity mismatch, one step up: where the version before refuses a body
/// of an older version for its identity, so does a version that converts
/// from it without fail. It compares no identity itself.
pub proof fn lemma_wrong_identity_passes_up<M: Model + From<P>, P: Model>(
    body: Seq<u8>,
    id: u32,
    version: u32,
    own: u32,
)
    requires
        has_constant_identity::<M>(),
        decodes_from::<M, P>(),
        is_version_of::<M>(own),
        version < own,
        refuses_identity::<P>(body, id, version),
    ensures
        refuses_identity::<M>(body, id, version),
{
}

/// Identity mismatch, one step up: where the version before refuses a body
/// of an older version for its identity, so does a version that converts
/// from it with a possible failure. It compares no identity itself, and
/// asks for no conversion.
pub proof fn lemma_wrong_identity_passes_up_fallibly<M: Model + TryFrom<P>, P: Model>(
    body: Seq<u8>,
    id: u32,
    version: u32,
    own: u32,
) where <M as TryFrom<P>>::Error: core::fmt::Display + Into<AnyhowError>
    requires
        has_constant_identity::<M>(),
        decodes_try_from::<M, P>(),
        is_version_of::<M>(own),
        version < own,
        refuses_identity::<P>(body, id, version),
    ensures
        refuses_identity::<M>(body, id, version),
{
}

/// Identity mismatch, at the top: where the requested version refuses the
/// body of an envelope for the identity that the envelope claims, decoding
/// the envelope fails with that refusal. With the three lemmas before, one
/// step for each version between the requested one and the one that the
/// envelope was written in, this holds for a chain of any length.
pub proof fn lemma_wrong_identity_refused_by_decode<M: Model>(
    packed: Seq<u8>,
    back: Result<(M, u32), Error>,
)
    requires
        packed.len() >= HEADER_LEN,
        refuses_identity::<M>(body_of(packed), claimed_id(packed), claimed_version(packed)),
        decode_spec::<M>(packed, back),
    ensures
        back == Err::<(M, u32), Error>(
            Error::DecodeBodyError(DecodeBodyError::MismatchedModelId),
        ),
{
}

/// Upgrade through a chain: for a chain of three versions, the oldest one
/// without predecessor and each of the others converting from the one
/// before it, decoding the envelope of a value of the oldest version as the
/// newest gives what the two conversions give one after the other, with the
/// oldest version beside it.
pub proof fn lemma_upgrade_through_chain<A: Model, B: Model + From<A>, C: Model + From<B>>(
    a: A,
    version_a: u32,
    version_b: u32,
    version_c: u32,
    packed: Vec<u8>,
    back: Result<(C, u32), Error>,
)
    requires
        has_constant_identity::<A>(),
        has_constant_identity::<B>(),
        has_constant_identity::<C>(),
        is_version_of::<A>(version_a),
        is_version_of::<B>(version_b),
        is_version_of::<C>(version_c),
        version_a < version_b < version_c,
        decodes_without_predecessor::<A>(),
        decodes_from::<B, A>(),
        decodes_from::<C, B>(),
        body_round_trips(a),
        encode_spec(&a, Ok(packed)),
        decode_spec::<C>(packed@, back),
    ensures
        exists|b: B, c: C|
            {
                &&& #[trigger] call_ensures(<B as From<A>>::from, (a,), b)
                &&& #[trigger] call_ensures(<C as From<B>>::from, (b,), c)
                &&& back == Ok::<(C, u32), Error>((c, version_a))
            },
{
    let written = choose|written: Vec<u8>|
        writes_body::<A>(&a, Ok(written)) && exists|id: u32, v: u32|
            is_id_of::<A>(id) && is_version_of::<A>(v) && sealed(Ok(packed), id, v, written@);
    let (id, v) = choose|id: u32, v: u32|
        is_id_of::<A>(id) && is_version_of::<A>(v) && sealed(Ok(packed), id, v, written@);
    lemma_envelope_parts(id, v, written@);
}

/// Identity mismatch in a chain: for a chain of three versions, an envelope
/// of the oldest version that claims another identity is refused by the
/// body method of the oldest version, where the walk ends; the versions on
/// the way pass the refusal on.
pub proof fn lemma_wrong_identity_refused_at_chain_end<
    A: Model,
    B: Model + From<A>,
    C: Model + From<B>,
>(
    id: u32,
    version_a: u32,
    version_b: u32,
    version_c: u32,
    packed: Seq<u8>,
    back: Result<(C, u32), Error>,
)
    requires
        has_constant_identity::<A>(),
        has_constant_identity::<B>(),
        has_constant_identity::<C>(),
        is_id_of::<A>(id),
        is_version_of::<A>(version_a),
        is_version_of::<B>(version_b),
        is_version_of::<C>(version_c),
        version_a < version_b < version_c,
        decodes_not_below::<A>(),
        checks_model_id::<A>(),
        decodes_from::<B, A>(),
        decodes_from::<C, B>(),
        packed.len() >= HEADER_LEN,
        claimed_version(packed) == version_a,
        claimed_id(packed) != id,
        decode_spec::<C>(packed, back),
    ensures
        back == Err::<(C, u32), Error>(
            Error::DecodeBodyError(DecodeBodyError::MismatchedModelId),
        ),
{
}

/// Downgrade, then decode: for a chain of three versions of one identity,
/// each of the newer two converting into the one before it, the envelope of
/// a value of the newest version, encoded for the oldest, names the oldest
/// version; and the oldest version decodes it with its body method alone,
/// to what the two conversions give one after the other.
pub proof fn lemma_downgrade_then_decode<A: Model, B: Model + Into<A>, C: Model + Into<B>>(
    c: C,
    id: u32,
    version_a: u32,
    version_b: u32,
    version_c: u32,
    packed: Vec<u8>,
    back: Result<(A, u32), Error>,
)
    requires
        has_constant_identity::<A>(),
        has_constant_identity::<B>(),
        has_constant_identity::<C>(),
        is_id_of::<A>(id),
        is_id_of::<C>(id),
        is_version_of::<A>(version_a),
        is_version_of::<B>(version_b),
        is_version_of::<C>(version_c),
        version_a < version_b < version_c,
        encodes_not_below::<A>(),
        encodes_into::<B, A>(),
        encodes_into::<C, B>(),
        decodes_not_below::<A>(),
        forall|a: A| body_round_trips(a),
        encode_downgrade_spec(c, version_a, Ok(packed)),
        decode_spec::<A>(packed@, back),
    ensures
        packed@.len() >= HEADER_LEN,
        claimed_version(packed@) == version_a,
        exists|b: B, a: A|
            {
                &&& #[trigger] call_ensures(<C as Into<B>>::into, (c,), b)
                &&& #[trigger] call_ensures(<B as Into<A>>::into, (b,), a)
                &&& back == Ok::<(A, u32), Error>((a, version_a))
            },
{
    let written = choose|written: Vec<u8>|
        downgrades_body::<C>(c, version_a, Ok(written)) && exists|id: u32|
            is_id_of::<C>(id) && sealed(Ok(packed), id, version_a, written@);
    let id_c = choose|id: u32| is_id_of::<C>(id) && sealed(Ok(packed), id, version_a, written@);
    lemma_envelope_parts(id_c, version_a, written@);
    assert(downgrade_into::<C, B>(c, version_a, Ok(written)));
    let b = choose|b: B|
        call_ensures(<C as Into<B>>::into, (c,), b) && downgrades_body::<B>(
            b,
            version_a,
            Ok(written),
        );
    assert(downgrade_into::<B, A>(b, version_a, Ok(written)));
    let a = choose|a: A|
        call_ensures(<B as Into<A>>::into, (b,), a) && downgrades_body::<A>(
            a,
            version_a,
            Ok(written),
        );
    assert(body_round_trips(a));
    assert(back == Ok::<(A, u32), Error>((a, version_a)));
}

/// A conversion that can fail, on the way up: for a version that converts
/// from the one before it with a possible failure, decoding the envelope of
/// a value of the older version gives the converted value where the
/// conversion succeeds, and where it fails an upgrade error that holds the
/// text of the conversion's error and that error itself as its cause.
pub proof fn lemma_fallible_upgrade<A: Model, B: Model + TryFrom<A>>(
    a: A,
    version_a: u32,
    version_b: u32,
    packed: Vec<u8>,
    back: Result<(B, u32), Error>,
) where <B as TryFrom<A>>::Error: core::fmt::Display + Into<AnyhowError>
    requires
        has_constant_identity::<A>(),
        has_constant_identity::<B>(),
        is_version_of::<A>(version_a),
        is_version_of::<B>(version_b),
        version_a < version_b,
        decodes_not_below::<A>(),
        decodes_try_from::<B, A>(),
        body_round_trips(a),
        encode_spec(&a, Ok(packed)),
        decode_spec::<B>(packed@, back),
    ensures
        exists|converted: Result<B, <B as TryFrom<A>>::Error>|
            {
                &&& #[trigger] call_ensures(<B as TryFrom<A>>::try_from, (a,), converted)
                &&& match converted {
                    Ok(b) => back == Ok::<(B, u32), Error>((b, version_a)),
                    Err(e) => exists|msg: String, source: AnyhowError|
                        #![trigger is_text_of(&e, msg), is_cause_of(e, source)]
                        is_text_of(&e, msg) && is_cause_of(e, source) && back == Err::<
                            (B, u32),
                            Error,
                        >(Error::UpgradeError(UpgradeError { msg, source })),
                }
            },
{
    let written = choose|written: Vec<u8>|
        writes_body::<A>(&a, Ok(written)) && exists|id: u32, v: u32|
            is_id_of::<A>(id) && is_version_of::<A>(v) && sealed(Ok(packed), id, v, written@);
    let (id, v) = choose|id: u32, v: u32|
        is_id_of::<A>(id) && is_version_of::<A>(v) && sealed(Ok(packed), id, v, written@);
    lemma_envelope_parts(id, v, written@);
}

/// A conversion that can fail, on the way down: for a version that converts
/// into the one before it with a possible failure, encoding a value for the
/// older version gives the envelope that the older version writes for the
/// converted value where the conversion succeeds, and where it fails a
/// downgrade error that holds the text of the conversion's error and that
/// error itself as its cause.
pub proof fn lemma_fallible_downgrade<A: Model, B: Model + TryInto<A>>(
    b: B,
    version_a: u32,
    version_b: u32,
    r: Result<Vec<u8>, Error>,
) where <B as TryInto<A>>::Error: core::fmt::Display + Into<AnyhowError>
    requires
        has_constant_identity::<A>(),
        has_constant_identity::<B>(),
        is_version_of::<A>(version_a),
        is_version_of::<B>(version_b),
        version_a < version_b,
        encodes_try_into::<B, A>(),
        encode_downgrade_spec(b, version_a, r),
    ensures
        exists|converted: Result<A, <B as TryInto<A>>::Error>|
            {
                &&& #[trigger] call_ensures(<B as TryInto<A>>::try_into, (b,), converted)
                &&& match converted {
                    Ok(a) => exists|body: Result<Vec<u8>, Error>| #[trigger]
                        downgrades_body::<A>(a, version_a, body) && match body {
                            Ok(body) => exists|id: u32| #[trigger]
                                is_id_of::<B>(id) && sealed(r, id, version_a, body@),
                            Err(e) => r == Err::<Vec<u8>, Error>(e),
                        },
                    Err(e) => exists|msg: String, source: AnyhowError|
                        #![trigger is_text_of(&e, msg), is_cause_of(e, source)]
                        is_text_of(&e, msg) && is_cause_of(e, source) && r == Err::<
                            Vec<u8>,
                            Error,
                        >(Error::DowngradeError(DowngradeError { msg, source })),
                }
            },
{
}

} // verus!
