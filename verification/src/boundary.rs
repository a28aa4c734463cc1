//! The foreign-call boundary: total functions over nullable handles.
//!
//! The boundary has no channel for rich error propagation, so every function
//! here follows one policy: attempt the conversion, and on any failure —
//! including an absent (null) handle — return the fixed sentinel appropriate
//! to the return type.  An absent handle is modelled as `None`; pointer
//! results are modelled as `Option` (a `None` is the null sentinel), integer
//! results use the type's maximum, a float result uses the bit pattern of
//! the largest finite 64-bit float, byte and string results use the empty
//! value, and a boolean result uses `false`.  No function here has a side
//! effect: results are owned copies.

use vstd::prelude::*;

use crate::error::ItemError;
use crate::handle::AMitem;
use crate::item::AMindex;
use crate::item::AMobjId;
use crate::item::IndexView;
use crate::item::spec_idx_type;
use crate::item::spec_item_actor_hex;
use crate::item::spec_item_bool;
use crate::item::spec_item_bytes;
use crate::item::spec_item_change_hash;
use crate::item::spec_item_change_span;
use crate::item::spec_item_counter;
use crate::item::spec_item_doc;
use crate::item::spec_item_f64_bits;
use crate::item::spec_item_int;
use crate::item::spec_item_str;
use crate::item::spec_item_sync_have;
use crate::item::spec_item_sync_message;
use crate::item::spec_item_sync_state;
use crate::item::spec_item_tag;
use crate::item::spec_item_timestamp;
use crate::item::spec_item_uint;
use crate::item::spec_item_unknown;
use crate::scalar::AMunknownValue;
use crate::scalar::GenValue;
use crate::scalar::GenView;
use crate::scalar::Scalar;
use crate::scalar::ScalarView;
use crate::tag::AMidxType;
use crate::tag::AMvalType;
use crate::util::bytes_clone;
use crate::value::TaggedValue;
use crate::value::ValueView;

verus! {

/// The bit pattern of the largest finite 64-bit float: the sentinel for
/// float extractions.
pub const F64_SENTINEL_BITS: u64 = 9218868437227405311;

/// Tests the equality of two items.  Delegates to item equality; an absent
/// handle on either side yields `false`.
pub fn AMitemEqual(item1: Option<&AMitem>, item2: Option<&AMitem>) -> (r: bool)
    ensures
        item1 matches Some(a) ==> (item2 matches Some(b) ==> r == (a@.item == b@.item)),
        (item1 is None || item2 is None) ==> r == false,
{
    match (item1, item2) {
        (Option::Some(a), Option::Some(b)) => *a == *b,
        _ => false,
    }
}

/// A new item initialized from a boolean value.
pub fn AMitemFromBool(value: bool) -> (r: AMitem)
    ensures
        r@.item.value == Option::Some(
            ValueView::Generic(GenView::Scalar(ScalarView::Boolean(value))),
        ),
        r@.item.index is None,
        r@.item.obj_id is None,
        r@.count == 1,
        r.wf(),
{
    AMitem::from_value(TaggedValue::Generic(GenValue::Scalar(Scalar::Boolean(value))))
}

/// A new item initialized from an array of bytes, which it takes ownership
/// of.
pub fn AMitemFromBytes(value: Vec<u8>) -> (r: AMitem)
    ensures
        r@.item.value == Option::Some(
            ValueView::Generic(GenView::Scalar(ScalarView::Bytes(value@))),
        ),
        r@.item.index is None,
        r@.item.obj_id is None,
        r@.count == 1,
        r.wf(),
{
    AMitem::from_value(TaggedValue::Generic(GenValue::Scalar(Scalar::Bytes(value))))
}

/// A new item initialized from a change hash's bytes: exactly 32 bytes are
/// accepted, anything else is rejected.
pub fn AMitemFromChangeHash(value: Vec<u8>) -> (r: Result<AMitem, ItemError>)
    ensures
        value@.len() == 32 ==> (r matches Ok(h) && h@.item.value == Option::Some(
            ValueView::ChangeHash(value@),
        ) && h@.item.index is None && h@.item.obj_id is None && h@.count == 1 && h.wf()),
        value@.len() != 32 ==> r == Err::<AMitem, ItemError>(ItemError::InvalidChangeHashSize),
{
    match TaggedValue::from_hash_bytes(value) {
        Ok(v) => Ok(AMitem::from_value(v)),
        Err(e) => Err(e),
    }
}

/// A new item initialized from a CRDT counter value.
pub fn AMitemFromCounter(value: i64) -> (r: AMitem)
    ensures
        r@.item.value == Option::Some(
            ValueView::Generic(GenView::Scalar(ScalarView::Counter(value))),
        ),
        r@.item.index is None,
        r@.item.obj_id is None,
        r@.count == 1,
        r.wf(),
{
    AMitem::from_value(TaggedValue::Generic(GenValue::Scalar(Scalar::Counter(value))))
}

/// A new item initialized from a 64-bit float value, given as its bit
/// pattern.
pub fn AMitemFromF64Bits(bits: u64) -> (r: AMitem)
    ensures
        r@.item.value == Option::Some(
            ValueView::Generic(GenView::Scalar(ScalarView::F64Bits(bits))),
        ),
        r@.item.index is None,
        r@.item.obj_id is None,
        r@.count == 1,
        r.wf(),
{
    AMitem::from_value(TaggedValue::Generic(GenValue::Scalar(Scalar::F64Bits(bits))))
}

/// A new item initialized from a signed integer value.
pub fn AMitemFromInt(value: i64) -> (r: AMitem)
    ensures
        r@.item.value == Option::Some(
            ValueView::Generic(GenView::Scalar(ScalarView::Int(value))),
        ),
        r@.item.index is None,
        r@.item.obj_id is None,
        r@.count == 1,
        r.wf(),
{
    AMitem::from_value(TaggedValue::Generic(GenValue::Scalar(Scalar::Int(value))))
}

/// A new item initialized from a null value.
pub fn AMitemFromNull() -> (r: AMitem)
    ensures
        r@.item.value == Option::Some(ValueView::Generic(GenView::Scalar(ScalarView::Null))),
        r@.item.index is None,
        r@.item.obj_id is None,
        r@.count == 1,
        r.wf(),
{
    AMitem::from_value(TaggedValue::Generic(GenValue::Scalar(Scalar::Null)))
}

/// A new item initialized from a UTF-8 string, which it takes ownership of.
pub fn AMitemFromStr(value: String) -> (r: AMitem)
    ensures
        r@.item.value == Option::Some(
            ValueView::Generic(GenView::Scalar(ScalarView::Str(value@))),
        ),
        r@.item.index is None,
        r@.item.obj_id is None,
        r@.count == 1,
        r.wf(),
{
    AMitem::from_value(TaggedValue::Generic(GenValue::Scalar(Scalar::Str(value))))
}

/// A new item initialized from a *nix timestamp (milliseconds) value.
pub fn AMitemFromTimestamp(value: i64) -> (r: AMitem)
    ensures
        r@.item.value == Option::Some(
            ValueView::Generic(GenView::Scalar(ScalarView::Timestamp(value))),
        ),
        r@.item.index is None,
        r@.item.obj_id is None,
        r@.count == 1,
        r.wf(),
{
    AMitem::from_value(TaggedValue::Generic(GenValue::Scalar(Scalar::Timestamp(value))))
}

/// A new item initialized from an unsigned integer value.
pub fn AMitemFromUint(value: u64) -> (r: AMitem)
    ensures
        r@.item.value == Option::Some(
            ValueView::Generic(GenView::Scalar(ScalarView::Uint(value))),
        ),
        r@.item.index is None,
        r@.item.obj_id is None,
        r@.count == 1,
        r.wf(),
{
    AMitem::from_value(TaggedValue::Generic(GenValue::Scalar(Scalar::Uint(value))))
}

/// The type of an item's index; `Default` for an absent handle.
pub fn AMitemIdxType(item: Option<&AMitem>) -> (r: AMidxType)
    ensures
        item matches Some(h) ==> r == spec_idx_type(h@.item),
        item is None ==> r == AMidxType::Default,
{
    match item {
        Option::Some(h) => h.item.idx_type(),
        Option::None => AMidxType::Default,
    }
}

/// The object identifier of an item; null (`None`) for an absent handle or
/// an item without one.
pub fn AMitemObjId(item: Option<&AMitem>) -> (r: Option<&AMobjId>)
    ensures
        item matches Some(h) ==> (h@.item.obj_id matches Some(o) ==> (r matches Some(ro) && ro@
            == o)),
        item matches Some(h) && h@.item.obj_id is None ==> r is None,
        item is None ==> r is None,
{
    match item {
        Option::Some(h) => match &h.item.obj_id {
            Option::Some(o) => Some(o),
            Option::None => None,
        },
        Option::None => None,
    }
}

/// The key of an item's index; the empty string for an absent handle or an
/// item that carries no key.
pub fn AMitemKey(item: Option<&AMitem>) -> (r: String)
    ensures
        item matches Some(h) ==> (h@.item.index matches Some(IndexView::Key(k)) ==> r@ == k),
        !(item matches Some(h) && h@.item.index matches Some(IndexView::Key(_))) ==> r@ == Seq::<
            char,
        >::empty(),
{
    match item {
        Option::Some(h) => match &h.item.index {
            Option::Some(AMindex::Key(k)) => k.clone(),
            _ => String::new(),
        },
        Option::None => String::new(),
    }
}

/// The position of an item's index; the unsigned maximum ("not found") for
/// an absent handle or an item that carries no position.
pub fn AMitemPos(item: Option<&AMitem>) -> (r: usize)
    ensures
        item matches Some(h) ==> (h@.item.index matches Some(IndexView::Pos(p)) ==> r == p),
        !(item matches Some(h) && h@.item.index matches Some(IndexView::Pos(_))) ==> r
            == usize::MAX,
{
    match item {
        Option::Some(h) => match &h.item.index {
            Option::Some(AMindex::Pos(p)) => *p,
            _ => usize::MAX,
        },
        Option::None => usize::MAX,
    }
}

/// The reference count of an item; zero for an absent handle.
pub fn AMitemRefCount(item: Option<&AMitem>) -> (r: usize)
    ensures
        item matches Some(h) ==> r == h@.count,
        item is None ==> r == 0,
{
    match item {
        Option::Some(h) => h.reference_count(),
        Option::None => 0,
    }
}

/// The type of an item's value; `Default` for an absent handle (`Void` for a
/// live handle on a value-less item).
pub fn AMitemValType(item: Option<&AMitem>) -> (r: AMvalType)
    ensures
        item matches Some(h) ==> r == spec_item_tag(h@.item),
        item is None ==> r == AMvalType::Default,
{
    match item {
        Option::Some(h) => h.item.tag(),
        Option::None => AMvalType::Default,
    }
}

/// The actor identifier of an item, as its lowercase hex spelling; null
/// (`None`) for an absent handle or any other kind of value.
pub fn AMitemToActorId(item: Option<&AMitem>) -> (r: Option<String>)
    ensures
        item matches Some(h) ==> ((spec_item_actor_hex(h@.item) matches Ok(s) ==> (
        r matches Some(v) && v@ == s)) && (spec_item_actor_hex(h@.item) is Err ==> r is None)),
        item is None ==> r is None,
{
    match item {
        Option::Some(h) => match &h.item.value {
            Option::Some(TaggedValue::ActorId { bytes, .. }) => Some(
                crate::hex::hex_of_bytes(bytes),
            ),
            _ => None,
        },
        Option::None => None,
    }
}

/// The boolean value of an item; `false` for an absent handle or any other
/// kind of value.
pub fn AMitemToBool(item: Option<&AMitem>) -> (r: bool)
    ensures
        item matches Some(h) ==> r == (match spec_item_bool(h@.item) {
            Ok(b) => b,
            Err(_) => false,
        }),
        item is None ==> r == false,
{
    match item {
        Option::Some(h) => match h.item.try_into_bool() {
            Ok(b) => b,
            Err(_) => false,
        },
        Option::None => false,
    }
}

/// The array-of-bytes value of an item; empty for an absent handle or any
/// other kind of value.
pub fn AMitemToBytes(item: Option<&AMitem>) -> (r: Vec<u8>)
    ensures
        item matches Some(h) ==> ((spec_item_bytes(h@.item) matches Ok(b) ==> r@ == b) && (
        spec_item_bytes(h@.item) is Err ==> r@ == Seq::<u8>::empty())),
        item is None ==> r@ == Seq::<u8>::empty(),
{
    match item {
        Option::Some(h) => match h.item.try_into_bytes() {
            Ok(b) => b,
            Err(_) => Vec::new(),
        },
        Option::None => Vec::new(),
    }
}

/// The change value of an item, as its foreign projection (the change's hash
/// bytes); null (`None`) for an absent handle, a handle with more than one
/// live alias, or any other kind of value.
pub fn AMitemToChange(item: Option<&AMitem>) -> (r: Option<Vec<u8>>)
    ensures
        item matches Some(h) ==> (h@.count == 1 ==> ((spec_item_change_span(h@.item) matches Ok(
        s) ==> (r matches Some(v) && v@ == s)) && (spec_item_change_span(h@.item) is Err ==> r
            is None))),
        item matches Some(h) ==> (h@.count != 1 ==> r is None),
        item is None ==> r is None,
{
    match item {
        Option::Some(h) => {
            if h.count != 1 {
                return None;
            }
            match &h.item.value {
                Option::Some(TaggedValue::Change { hash, .. }) => Some(bytes_clone(hash)),
                _ => None,
            }
        },
        Option::None => None,
    }
}

/// The change hash value of an item; empty for an absent handle or any other
/// kind of value.
pub fn AMitemToChangeHash(item: Option<&AMitem>) -> (r: Vec<u8>)
    ensures
        item matches Some(h) ==> ((spec_item_change_hash(h@.item) matches Ok(b) ==> r@ == b) && (
        spec_item_change_hash(h@.item) is Err ==> r@ == Seq::<u8>::empty())),
        item is None ==> r@ == Seq::<u8>::empty(),
{
    match item {
        Option::Some(h) => match h.item.try_into_change_hash() {
            Ok(b) => b,
            Err(_) => Vec::new(),
        },
        Option::None => Vec::new(),
    }
}

/// The CRDT counter value of an item; the signed maximum for an absent
/// handle or any other kind of value.
pub fn AMitemToCounter(item: Option<&AMitem>) -> (r: i64)
    ensures
        item matches Some(h) ==> r == (match spec_item_counter(h@.item) {
            Ok(c) => c,
            Err(_) => i64::MAX,
        }),
        item is None ==> r == i64::MAX,
{
    match item {
        Option::Some(h) => match h.item.try_into_counter() {
            Ok(c) => c,
            Err(_) => i64::MAX,
        },
        Option::None => i64::MAX,
    }
}

/// The document of an item, as the identity token that stands for the
/// document instance; null (`None`) for an absent handle, a handle with more
/// than one live alias, or any other kind of value.
pub fn AMitemToDoc(item: Option<&AMitem>) -> (r: Option<u64>)
    ensures
        item matches Some(h) ==> (h@.count == 1 ==> r == (match spec_item_doc(h@.item) {
            Ok(t) => Some(t),
            Err(_) => None::<u64>,
        })),
        item matches Some(h) ==> (h@.count != 1 ==> r is None),
        item is None ==> r is None,
{
    match item {
        Option::Some(h) => {
            if h.count != 1 {
                return None;
            }
            match h.item.doc_token() {
                Ok(t) => Some(t),
                Err(_) => None,
            }
        },
        Option::None => None,
    }
}

/// The 64-bit float value of an item, as its bit pattern; the bit pattern of
/// the largest finite float for an absent handle or any other kind of value.
pub fn AMitemToF64Bits(item: Option<&AMitem>) -> (r: u64)
    ensures
        item matches Some(h) ==> r == (match spec_item_f64_bits(h@.item) {
            Ok(f) => f,
            Err(_) => F64_SENTINEL_BITS,
        }),
        item is None ==> r == F64_SENTINEL_BITS,
{
    match item {
        Option::Some(h) => match h.item.try_into_f64_bits() {
            Ok(f) => f,
            Err(_) => F64_SENTINEL_BITS,
        },
        Option::None => F64_SENTINEL_BITS,
    }
}

/// The signed integer value of an item; the signed maximum for an absent
/// handle or any other kind of value.
pub fn AMitemToInt(item: Option<&AMitem>) -> (r: i64)
    ensures
        item matches Some(h) ==> r == (match spec_item_int(h@.item) {
            Ok(x) => x,
            Err(_) => i64::MAX,
        }),
        item is None ==> r == i64::MAX,
{
    match item {
        Option::Some(h) => match h.item.try_into_int() {
            Ok(x) => x,
            Err(_) => i64::MAX,
        },
        Option::None => i64::MAX,
    }
}

/// The UTF-8 string value of an item; empty for an absent handle or any
/// other kind of value.
pub fn AMitemToStr(item: Option<&AMitem>) -> (r: String)
    ensures
        item matches Some(h) ==> ((spec_item_str(h@.item) matches Ok(s) ==> r@ == s) && (
        spec_item_str(h@.item) is Err ==> r@ == Seq::<char>::empty())),
        item is None ==> r@ == Seq::<char>::empty(),
{
    match item {
        Option::Some(h) => match h.item.try_into_str() {
            Ok(s) => s,
            Err(_) => String::new(),
        },
        Option::None => String::new(),
    }
}

/// The synchronization "have" value of an item, as its heads; null (`None`)
/// for an absent handle or any other kind of value.
pub fn AMitemToSyncHave(item: Option<&AMitem>) -> (r: Option<Vec<Vec<u8>>>)
    ensures
        item matches Some(h) ==> ((spec_item_sync_have(h@.item) matches Ok(s) ==> (
        r matches Some(v) && v.deep_view() == s)) && (spec_item_sync_have(h@.item) is Err ==> r
            is None)),
        item is None ==> r is None,
{
    match item {
        Option::Some(h) => match h.item.try_into_sync_have() {
            Ok(s) => Some(s),
            Err(_) => None,
        },
        Option::None => None,
    }
}

/// The synchronization message value of an item, as its encoding; null
/// (`None`) for an absent handle or any other kind of value.
pub fn AMitemToSyncMessage(item: Option<&AMitem>) -> (r: Option<Vec<u8>>)
    ensures
        item matches Some(h) ==> ((spec_item_sync_message(h@.item) matches Ok(b) ==> (
        r matches Some(v) && v@ == b)) && (spec_item_sync_message(h@.item) is Err ==> r is None)),
        item is None ==> r is None,
{
    match item {
        Option::Some(h) => match h.item.try_into_sync_message() {
            Ok(b) => Some(b),
            Err(_) => None,
        },
        Option::None => None,
    }
}

/// The synchronization state value of an item, as its encoding; null
/// (`None`) for an absent handle, a handle with more than one live alias, or
/// any other kind of value.
pub fn AMitemToSyncState(item: Option<&AMitem>) -> (r: Option<Vec<u8>>)
    ensures
        item matches Some(h) ==> (h@.count == 1 ==> ((spec_item_sync_state(h@.item) matches Ok(
        b) ==> (r matches Some(v) && v@ == b)) && (spec_item_sync_state(h@.item) is Err ==> r
            is None))),
        item matches Some(h) ==> (h@.count != 1 ==> r is None),
        item is None ==> r is None,
{
    match item {
        Option::Some(h) => {
            if h.count != 1 {
                return None;
            }
            match h.item.try_into_sync_state() {
                Ok(b) => Some(b),
                Err(_) => None,
            }
        },
        Option::None => None,
    }
}

/// The *nix timestamp (milliseconds) value of an item; the signed maximum —
/// the one sentinel of every signed-integer extraction — for an absent
/// handle or any other kind of value.
pub fn AMitemToTimestamp(item: Option<&AMitem>) -> (r: i64)
    ensures
        item matches Some(h) ==> r == (match spec_item_timestamp(h@.item) {
            Ok(t) => t,
            Err(_) => i64::MAX,
        }),
        item is None ==> r == i64::MAX,
{
    match item {
        Option::Some(h) => match h.item.try_into_timestamp() {
            Ok(t) => t,
            Err(_) => i64::MAX,
        },
        Option::None => i64::MAX,
    }
}

/// The unsigned integer value of an item; the unsigned maximum for an absent
/// handle or any other kind of value.
pub fn AMitemToUint(item: Option<&AMitem>) -> (r: u64)
    ensures
        item matches Some(h) ==> r == (match spec_item_uint(h@.item) {
            Ok(u) => u,
            Err(_) => u64::MAX,
        }),
        item is None ==> r == u64::MAX,
{
    match item {
        Option::Some(h) => match h.item.try_into_uint() {
            Ok(u) => u,
            Err(_) => u64::MAX,
        },
        Option::None => u64::MAX,
    }
}

/// The unknown-typed value of an item; the all-zero unknown value for an
/// absent handle or any other kind of value.
pub fn AMitemToUnknown(item: Option<&AMitem>) -> (r: AMunknownValue)
    ensures
        item matches Some(h) ==> ((spec_item_unknown(h@.item) matches Ok(u) ==> r@ == u) && (
        spec_item_unknown(h@.item) is Err ==> (r@.bytes == Seq::<u8>::empty() && r@.type_code
            == 0))),
        item is None ==> (r@.bytes == Seq::<u8>::empty() && r@.type_code == 0),
{
    match item {
        Option::Some(h) => match h.item.try_into_unknown() {
            Ok(u) => u,
            Err(_) => AMunknownValue { bytes: Vec::new(), type_code: 0 },
        },
        Option::None => AMunknownValue { bytes: Vec::new(), type_code: 0 },
    }
}

} // verus!
