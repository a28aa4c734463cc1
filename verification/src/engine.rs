//! Trusted declarations of the document-engine types that flow through this
//! layer, and thin wrappers around the engine calls that read them.
//!
//! The engine's types are opaque to the rest of the crate: each wrapper here
//! converts one engine value into the plain data the verified model works
//! on.  Every function in this module is believed, not verified; its doc
//! comment names the engine item it relies on.

use vstd::prelude::*;

use crate::scalar::ObjKind;
use crate::scalar::Scalar;

verus! {

#[verifier::external_type_specification]
#[verifier::external_body]
pub struct ExActorId(automerge::ActorId);

#[verifier::external_type_specification]
#[verifier::external_body]
pub struct ExChange(automerge::Change);

#[verifier::external_type_specification]
#[verifier::external_body]
pub struct ExChangeHash(automerge::ChangeHash);

#[verifier::external_type_specification]
#[verifier::external_body]
pub struct ExAutoCommit(automerge::AutoCommit);

#[verifier::external_type_specification]
#[verifier::external_body]
pub struct ExObjId(automerge::ObjId);

#[verifier::external_type_specification]
#[verifier::external_body]
pub struct ExObjType(automerge::ObjType);

#[verifier::external_type_specification]
#[verifier::external_body]
pub struct ExScalarValue(automerge::ScalarValue);

#[verifier::external_type_specification]
#[verifier::external_body]
pub struct ExAmValue<'a>(automerge::Value<'a>);

#[verifier::external_type_specification]
#[verifier::external_body]
pub struct ExSyncHave(automerge::sync::Have);

#[verifier::external_type_specification]
#[verifier::external_body]
pub struct ExSyncMessage(automerge::sync::Message);

#[verifier::external_type_specification]
#[verifier::external_body]
pub struct ExSyncState(automerge::sync::State);

/// Relies on `automerge::ActorId::to_bytes`: the bytes of the actor
/// identifier.
#[verifier::external_body]
pub(crate) fn actor_bytes(a: &automerge::ActorId) -> Vec<u8> {
    a.to_bytes().to_vec()
}

/// Relies on `automerge::Change::raw_bytes`: the stored binary encoding of
/// the change.
#[verifier::external_body]
pub(crate) fn change_raw_bytes(c: &automerge::Change) -> Vec<u8> {
    c.raw_bytes().to_vec()
}

/// Relies on `automerge::Change::hash`: the SHA-256 hash of the change, 32
/// bytes.
#[verifier::external_body]
pub(crate) fn change_hash(c: &automerge::Change) -> (r: Vec<u8>)
    ensures
        r@.len() == 32,
{
    c.hash().0.to_vec()
}

/// Relies on `automerge::ChangeHash` being a public array of 32 bytes.
#[verifier::external_body]
pub(crate) fn change_hash_bytes(h: &automerge::ChangeHash) -> (r: Vec<u8>)
    ensures
        r@.len() == 32,
{
    h.0.to_vec()
}

/// Relies on `automerge::ObjId` having exactly two forms: the root object,
/// or a counter paired with an actor (plus an actor index that its own
/// equality ignores).
#[verifier::external_body]
pub(crate) fn obj_id_parts(o: automerge::ObjId) -> Option<(u64, automerge::ActorId)> {
    match o {
        automerge::ObjId::Root => None,
        automerge::ObjId::Id(counter, actor, _) => Some((counter, actor)),
    }
}

/// Relies on `automerge::sync::Have`'s public `last_sync` field: the heads at
/// the time of the last successful sync.
#[verifier::external_body]
pub(crate) fn have_last_sync(h: automerge::sync::Have) -> Vec<automerge::ChangeHash> {
    h.last_sync
}

/// Relies on `automerge::sync::Message::encode`: the binary encoding of the
/// message.
#[verifier::external_body]
pub(crate) fn message_encode(m: automerge::sync::Message) -> Vec<u8> {
    m.encode()
}

/// Relies on `automerge::sync::State::encode`: the binary encoding of the
/// reusable part of the synchronization state.
#[verifier::external_body]
pub(crate) fn state_encode(s: &automerge::sync::State) -> Vec<u8> {
    s.encode()
}

/// Relies on `automerge::Value` having exactly two forms: a composite object
/// type, or a scalar.
#[verifier::external_body]
pub(crate) fn split_value(v: automerge::Value<'static>) -> Result<
    automerge::ObjType,
    automerge::ScalarValue,
> {
    match v {
        automerge::Value::Object(t) => Ok(t),
        automerge::Value::Scalar(s) => Err(s.into_owned()),
    }
}

/// Relies on `automerge::ObjType` having exactly the four composite kinds.
#[verifier::external_body]
pub(crate) fn obj_kind_model(t: &automerge::ObjType) -> ObjKind {
    match t {
        automerge::ObjType::Map => ObjKind::MapObj,
        automerge::ObjType::Table => ObjKind::Table,
        automerge::ObjType::List => ObjKind::List,
        automerge::ObjType::Text => ObjKind::Text,
    }
}

/// Relies on `automerge::ScalarValue`'s variants, on `i64::from(&Counter)`
/// (the counter's current value), on `f64::to_bits`, and on
/// `smol_str::SmolStr::to_string`.
#[verifier::external_body]
pub(crate) fn scalar_model(s: automerge::ScalarValue) -> Scalar {
    match s {
        automerge::ScalarValue::Bytes(v) => Scalar::Bytes(v),
        automerge::ScalarValue::Str(t) => Scalar::Str(t.to_string()),
        automerge::ScalarValue::Int(i) => Scalar::Int(i),
        automerge::ScalarValue::Uint(u) => Scalar::Uint(u),
        automerge::ScalarValue::F64(n) => Scalar::F64Bits(n.to_bits()),
        automerge::ScalarValue::Counter(c) => Scalar::Counter(i64::from(&c)),
        automerge::ScalarValue::Timestamp(t) => Scalar::Timestamp(t),
        automerge::ScalarValue::Boolean(b) => Scalar::Boolean(b),
        automerge::ScalarValue::Unknown { type_code, bytes } => Scalar::Unknown { type_code, bytes },
        automerge::ScalarValue::Null => Scalar::Null,
    }
}

} // verus!
