//! The item: one row of a query result.
//!
//! An item bundles an optional locator (a key or a position), an optional
//! owning-object identifier, and an optional tagged value; the all-empty
//! item is the canonical "void" result.  Every fallible conversion on an
//! item delegates to the contained tagged value's conversion, substituting a
//! distinguished "no value present" error when the item has none.

use vstd::prelude::*;

use crate::engine;
use crate::error::ItemError;
use crate::scalar::AMunknownValue;
use crate::scalar::GenValue;
use crate::scalar::GenView;
use crate::scalar::Scalar;
use crate::scalar::ScalarView;
use crate::scalar::UnknownView;
use crate::tag::AMidxType;
use crate::tag::AMvalType;
use crate::tag::GENERIC_VALUE_MASK;
use crate::util::bytes_clone;
use crate::util::bytes_eq;
use crate::value::TaggedValue;
use crate::value::ValueView;
use crate::value::spec_value_bool;
use crate::value::spec_value_bytes;
use crate::value::spec_value_change;
use crate::value::spec_value_change_hash;
use crate::value::spec_value_counter;
use crate::value::spec_value_doc;
use crate::value::spec_value_f64_bits;
use crate::value::spec_value_int;
use crate::value::spec_value_scalar;
use crate::value::spec_value_str;
use crate::value::spec_value_sync_have;
use crate::value::spec_value_sync_message;
use crate::value::spec_value_sync_state;
use crate::value::spec_value_tag;
use crate::value::spec_value_timestamp;
use crate::value::spec_value_uint;
use crate::value::spec_value_unknown;

verus! {

/// An item's locator within its container: a string key or a numeric
/// position.
pub enum AMindex {
    /// A key into a keyed container.
    Key(String),
    /// A position into a sequential container.
    Pos(usize),
}

/// The mathematical content of an [`AMindex`].
pub enum IndexView {
    Key(Seq<char>),
    Pos(usize),
}

impl View for AMindex {
    type V = IndexView;

    open spec fn view(&self) -> IndexView {
        match self {
            AMindex::Key(k) => IndexView::Key(k@),
            AMindex::Pos(p) => IndexView::Pos(*p),
        }
    }
}

impl vstd::std_specs::cmp::PartialEqSpecImpl for AMindex {
    open spec fn obeys_eq_spec() -> bool {
        true
    }

    open spec fn eq_spec(&self, other: &Self) -> bool {
        self@ == other@
    }
}

impl PartialEq for AMindex {
    fn eq(&self, other: &Self) -> (r: bool) {
        match (self, other) {
            (AMindex::Key(a), AMindex::Key(b)) => *a == *b,
            (AMindex::Pos(a), AMindex::Pos(b)) => a == b,
            _ => false,
        }
    }
}

/// An owning-object identifier: the root object, or a counter paired with
/// the bytes of the actor that created the object.
pub enum AMobjId {
    /// The root object of a document.
    Root,
    /// A non-root object: its counter and its creating actor's bytes.
    Id { counter: u64, actor: Vec<u8> },
}

/// The mathematical content of an [`AMobjId`].
pub enum ObjIdView {
    Root,
    Id { counter: u64, actor: Seq<u8> },
}

impl View for AMobjId {
    type V = ObjIdView;

    open spec fn view(&self) -> ObjIdView {
        match self {
            AMobjId::Root => ObjIdView::Root,
            AMobjId::Id { counter, actor } => ObjIdView::Id { counter: *counter, actor: actor@ },
        }
    }
}

impl AMobjId {
    /// Models an engine object identifier, taking ownership.
    pub fn from_engine(obj_id: automerge::ObjId) -> AMobjId {
        match engine::obj_id_parts(obj_id) {
            Option::None => AMobjId::Root,
            Option::Some((counter, actor)) => AMobjId::Id {
                counter,
                actor: engine::actor_bytes(&actor),
            },
        }
    }

    /// A fresh identifier with the same content.
    pub fn duplicated(&self) -> (r: Self)
        ensures
            r@ == self@,
    {
        match self {
            AMobjId::Root => AMobjId::Root,
            AMobjId::Id { counter, actor } => AMobjId::Id {
                counter: *counter,
                actor: bytes_clone(actor),
            },
        }
    }
}

impl vstd::std_specs::cmp::PartialEqSpecImpl for AMobjId {
    open spec fn obeys_eq_spec() -> bool {
        true
    }

    open spec fn eq_spec(&self, other: &Self) -> bool {
        self@ == other@
    }
}

impl PartialEq for AMobjId {
    fn eq(&self, other: &Self) -> (r: bool) {
        match (self, other) {
            (AMobjId::Root, AMobjId::Root) => true,
            (
                AMobjId::Id { counter: c1, actor: a1 },
                AMobjId::Id { counter: c2, actor: a2 },
            ) => c1 == c2 && bytes_eq(a1, a2),
            _ => false,
        }
    }
}

/// One row of a query result: an optional locator, an optional
/// owning-object identifier, and an optional tagged value.  The all-empty
/// item is the canonical "void" result.
pub struct Item {
    /// The item's locator, when the result came from a positional or keyed
    /// container traversal.
    pub index: Option<AMindex>,
    /// The identifier of the object that owns the result.
    pub obj_id: Option<AMobjId>,
    /// The item's value.
    pub value: Option<TaggedValue>,
}

/// The mathematical content of an [`Item`].
pub struct ItemView {
    pub index: Option<IndexView>,
    pub obj_id: Option<ObjIdView>,
    pub value: Option<ValueView>,
}

impl View for Item {
    type V = ItemView;

    open spec fn view(&self) -> ItemView {
        ItemView {
            index: match self.index {
                Option::Some(i) => Option::Some(i@),
                Option::None => Option::None,
            },
            obj_id: match self.obj_id {
                Option::Some(o) => Option::Some(o@),
                Option::None => Option::None,
            },
            value: match self.value {
                Option::Some(v) => Option::Some(v@),
                Option::None => Option::None,
            },
        }
    }
}

/// The type tag of an item: the tag of its value, or `Void` when it has
/// none.
pub open spec fn spec_item_tag(i: ItemView) -> AMvalType {
    match i.value {
        Option::Some(v) => spec_value_tag(v),
        Option::None => AMvalType::Void,
    }
}

/// The locator tag of an item.
pub open spec fn spec_idx_type(i: ItemView) -> AMidxType {
    match i.index {
        Option::Some(IndexView::Key(_)) => AMidxType::Key,
        Option::Some(IndexView::Pos(_)) => AMidxType::Pos,
        Option::None => AMidxType::Default,
    }
}

/// The error for a downcast on an item that holds the wrong kind of value,
/// or none at all.
pub open spec fn spec_item_mismatch(expected: u32, i: ItemView) -> ItemError {
    ItemError::InvalidValueType { expected, unexpected: spec_item_tag(i).spec_bits() }
}

/// What extracting an array of bytes from an item returns.
pub open spec fn spec_item_bytes(i: ItemView) -> Result<Seq<u8>, ItemError> {
    match i.value {
        Option::Some(v) => spec_value_bytes(v),
        Option::None => Err(spec_item_mismatch(AMvalType::Bytes.spec_bits(), i)),
    }
}

/// What extracting a change hash from an item returns.
pub open spec fn spec_item_change_hash(i: ItemView) -> Result<Seq<u8>, ItemError> {
    match i.value {
        Option::Some(v) => spec_value_change_hash(v),
        Option::None => Err(spec_item_mismatch(AMvalType::ChangeHash.spec_bits(), i)),
    }
}

/// What extracting a counter from an item returns.
pub open spec fn spec_item_counter(i: ItemView) -> Result<i64, ItemError> {
    match i.value {
        Option::Some(v) => spec_value_counter(v),
        Option::None => Err(spec_item_mismatch(AMvalType::Counter.spec_bits(), i)),
    }
}

/// What extracting a signed integer from an item returns.
pub open spec fn spec_item_int(i: ItemView) -> Result<i64, ItemError> {
    match i.value {
        Option::Some(v) => spec_value_int(v),
        Option::None => Err(spec_item_mismatch(AMvalType::Int.spec_bits(), i)),
    }
}

/// What extracting a string from an item returns.
pub open spec fn spec_item_str(i: ItemView) -> Result<Seq<char>, ItemError> {
    match i.value {
        Option::Some(v) => spec_value_str(v),
        Option::None => Err(spec_item_mismatch(AMvalType::Str.spec_bits(), i)),
    }
}

/// What extracting a timestamp from an item returns.
pub open spec fn spec_item_timestamp(i: ItemView) -> Result<i64, ItemError> {
    match i.value {
        Option::Some(v) => spec_value_timestamp(v),
        Option::None => Err(spec_item_mismatch(AMvalType::Timestamp.spec_bits(), i)),
    }
}

/// What extracting a boolean from an item returns.
pub open spec fn spec_item_bool(i: ItemView) -> Result<bool, ItemError> {
    match i.value {
        Option::Some(v) => spec_value_bool(v),
        Option::None => Err(spec_item_mismatch(AMvalType::Bool.spec_bits(), i)),
    }
}

/// What extracting an unsigned integer from an item returns.
pub open spec fn spec_item_uint(i: ItemView) -> Result<u64, ItemError> {
    match i.value {
        Option::Some(v) => spec_value_uint(v),
        Option::None => Err(spec_item_mismatch(AMvalType::Uint.spec_bits(), i)),
    }
}

/// What extracting a float's bit pattern from an item returns.
pub open spec fn spec_item_f64_bits(i: ItemView) -> Result<u64, ItemError> {
    match i.value {
        Option::Some(v) => spec_value_f64_bits(v),
        Option::None => Err(spec_item_mismatch(AMvalType::F64.spec_bits(), i)),
    }
}

/// What extracting an unknown-typed value from an item returns.
pub open spec fn spec_item_unknown(i: ItemView) -> Result<UnknownView, ItemError> {
    match i.value {
        Option::Some(v) => spec_value_unknown(v),
        Option::None => Err(spec_item_mismatch(AMvalType::Unknown.spec_bits(), i)),
    }
}

/// What extracting the whole scalar from an item returns.
pub open spec fn spec_item_scalar(i: ItemView) -> Result<ScalarView, ItemError> {
    match i.value {
        Option::Some(v) => spec_value_scalar(v),
        Option::None => Err(spec_item_mismatch(crate::tag::SCALAR_VALUE_MASK, i)),
    }
}

/// What extracting a change's binary encoding from an item returns.
pub open spec fn spec_item_change(i: ItemView) -> Result<Seq<u8>, ItemError> {
    match i.value {
        Option::Some(v) => spec_value_change(v),
        Option::None => Err(spec_item_mismatch(AMvalType::Change.spec_bits(), i)),
    }
}

/// What extracting the actor identifier's hex projection from an item
/// returns.
pub open spec fn spec_item_actor_hex(i: ItemView) -> Result<Seq<char>, ItemError> {
    match i.value {
        Option::Some(v) => crate::value::spec_value_actor_hex(v),
        Option::None => Err(spec_item_mismatch(AMvalType::ActorId.spec_bits(), i)),
    }
}

/// What extracting a change's foreign projection from an item returns.
pub open spec fn spec_item_change_span(i: ItemView) -> Result<Seq<u8>, ItemError> {
    match i.value {
        Option::Some(v) => crate::value::spec_value_change_span(v),
        Option::None => Err(spec_item_mismatch(AMvalType::Change.spec_bits(), i)),
    }
}

/// What extracting a synchronization "have" record from an item returns.
pub open spec fn spec_item_sync_have(i: ItemView) -> Result<Seq<Seq<u8>>, ItemError> {
    match i.value {
        Option::Some(v) => spec_value_sync_have(v),
        Option::None => Err(spec_item_mismatch(AMvalType::SyncHave.spec_bits(), i)),
    }
}

/// What extracting a synchronization message's encoding from an item
/// returns.
pub open spec fn spec_item_sync_message(i: ItemView) -> Result<Seq<u8>, ItemError> {
    match i.value {
        Option::Some(v) => spec_value_sync_message(v),
        Option::None => Err(spec_item_mismatch(AMvalType::SyncMessage.spec_bits(), i)),
    }
}

/// What extracting synchronization session state from an item returns.
pub open spec fn spec_item_sync_state(i: ItemView) -> Result<Seq<u8>, ItemError> {
    match i.value {
        Option::Some(v) => spec_value_sync_state(v),
        Option::None => Err(spec_item_mismatch(AMvalType::SyncState.spec_bits(), i)),
    }
}

/// What extracting a document's identity token from an item returns.
pub open spec fn spec_item_doc(i: ItemView) -> Result<u64, ItemError> {
    match i.value {
        Option::Some(v) => spec_value_doc(v),
        Option::None => Err(spec_item_mismatch(AMvalType::Doc.spec_bits(), i)),
    }
}

/// What the compound extraction of a generic value and its owning object
/// identifier returns: both must be present, and the value must be the
/// generic kind; a missing object identifier outranks every other failure.
pub open spec fn spec_item_value_obj_id(i: ItemView) -> Result<(GenView, ObjIdView), ItemError> {
    match i.obj_id {
        Option::None => Err(ItemError::InvalidObjId),
        Option::Some(o) => match i.value {
            Option::Some(ValueView::Generic(g)) => Ok((g, o)),
            _ => Err(spec_item_mismatch(GENERIC_VALUE_MASK, i)),
        },
    }
}

impl Item {
    /// Well-formed content: the contained value, if any, is well formed.
    pub open spec fn wf(self) -> bool {
        match self.value {
            Option::Some(v) => v.wf(),
            Option::None => true,
        }
    }

    /// Whether the contained value's foreign projection, if any, has not
    /// been requested yet.
    pub open spec fn projection_empty(self) -> bool {
        match self.value {
            Option::Some(v) => v.projection_empty(),
            Option::None => true,
        }
    }

    /// The void item: no locator, no object identifier, no value.
    pub fn void() -> (r: Item)
        ensures
            r@.index is None,
            r@.obj_id is None,
            r@.value is None,
            r.wf(),
    {
        Item { index: None, obj_id: None, value: None }
    }

    /// An item holding just a value.
    pub fn from_value(value: TaggedValue) -> (r: Item)
        ensures
            r@.index is None,
            r@.obj_id is None,
            r@.value == Option::Some(value@),
            value.wf() ==> r.wf(),
            value.projection_empty() ==> r.projection_empty(),
    {
        Item { index: None, obj_id: None, value: Some(value) }
    }

    /// An item holding just an object identifier: a reference to a container
    /// without materializing its contents.
    pub fn from_obj_id(obj_id: AMobjId) -> (r: Item)
        ensures
            r@.index is None,
            r@.obj_id == Option::Some(obj_id@),
            r@.value is None,
            r.wf(),
    {
        Item { index: None, obj_id: Some(obj_id), value: None }
    }

    /// The type tag of this item's value, `Void` when it has none.
    pub fn tag(&self) -> (r: AMvalType)
        ensures
            r == spec_item_tag(self@),
    {
        match &self.value {
            Option::Some(v) => v.tag(),
            Option::None => AMvalType::Void,
        }
    }

    /// The locator tag of this item.
    pub fn idx_type(&self) -> (r: AMidxType)
        ensures
            r == spec_idx_type(self@),
    {
        match &self.index {
            Option::Some(AMindex::Key(_)) => AMidxType::Key,
            Option::Some(AMindex::Pos(_)) => AMidxType::Pos,
            Option::None => AMidxType::Default,
        }
    }

    /// Extracts the bytes of an array-of-bytes scalar; fails when the item
    /// holds any other kind of value, or none.
    pub fn try_into_bytes(&self) -> (r: Result<Vec<u8>, ItemError>)
        ensures
            spec_item_bytes(self@) matches Ok(b) ==> (r matches Ok(v) && v@ == b),
            spec_item_bytes(self@) matches Err(e) ==> r == Err::<Vec<u8>, ItemError>(e),
    {
        match &self.value {
            Option::Some(v) => v.try_into_bytes(),
            Option::None => Err(ItemError::InvalidValueType {
                expected: AMvalType::Bytes.bits(),
                unexpected: AMvalType::Void.bits(),
            }),
        }
    }

    /// Extracts a change hash; fails when the item holds any other kind of
    /// value, or none.
    pub fn try_into_change_hash(&self) -> (r: Result<Vec<u8>, ItemError>)
        ensures
            spec_item_change_hash(self@) matches Ok(h) ==> (r matches Ok(v) && v@ == h),
            spec_item_change_hash(self@) matches Err(e) ==> r == Err::<Vec<u8>, ItemError>(e),
    {
        match &self.value {
            Option::Some(v) => v.try_into_change_hash(),
            Option::None => Err(ItemError::InvalidValueType {
                expected: AMvalType::ChangeHash.bits(),
                unexpected: AMvalType::Void.bits(),
            }),
        }
    }

    /// Extracts a counter's current value; fails when the item holds any
    /// other kind of value, or none.
    pub fn try_into_counter(&self) -> (r: Result<i64, ItemError>)
        ensures
            r == spec_item_counter(self@),
    {
        match &self.value {
            Option::Some(v) => v.try_into_counter(),
            Option::None => Err(ItemError::InvalidValueType {
                expected: AMvalType::Counter.bits(),
                unexpected: AMvalType::Void.bits(),
            }),
        }
    }

    /// Extracts a signed integer; fails when the item holds any other kind
    /// of value, or none.
    pub fn try_into_int(&self) -> (r: Result<i64, ItemError>)
        ensures
            r == spec_item_int(self@),
    {
        match &self.value {
            Option::Some(v) => v.try_into_int(),
            Option::None => Err(ItemError::InvalidValueType {
                expected: AMvalType::Int.bits(),
                unexpected: AMvalType::Void.bits(),
            }),
        }
    }

    /// Extracts a string; fails when the item holds any other kind of value,
    /// or none.
    pub fn try_into_str(&self) -> (r: Result<String, ItemError>)
        ensures
            spec_item_str(self@) matches Ok(s) ==> (r matches Ok(v) && v@ == s),
            spec_item_str(self@) matches Err(e) ==> r == Err::<String, ItemError>(e),
    {
        match &self.value {
            Option::Some(v) => v.try_into_str(),
            Option::None => Err(ItemError::InvalidValueType {
                expected: AMvalType::Str.bits(),
                unexpected: AMvalType::Void.bits(),
            }),
        }
    }

    /// Extracts a timestamp; fails when the item holds any other kind of
    /// value, or none.
    pub fn try_into_timestamp(&self) -> (r: Result<i64, ItemError>)
        ensures
            r == spec_item_timestamp(self@),
    {
        match &self.value {
            Option::Some(v) => v.try_into_timestamp(),
            Option::None => Err(ItemError::InvalidValueType {
                expected: AMvalType::Timestamp.bits(),
                unexpected: AMvalType::Void.bits(),
            }),
        }
    }

    /// Extracts a boolean; fails when the item holds any other kind of
    /// value, or none.
    pub fn try_into_bool(&self) -> (r: Result<bool, ItemError>)
        ensures
            r == spec_item_bool(self@),
    {
        match &self.value {
            Option::Some(v) => v.try_into_bool(),
            Option::None => Err(ItemError::InvalidValueType {
                expected: AMvalType::Bool.bits(),
                unexpected: AMvalType::Void.bits(),
            }),
        }
    }

    /// Extracts an unsigned integer; fails when the item holds any other
    /// kind of value, or none.
    pub fn try_into_uint(&self) -> (r: Result<u64, ItemError>)
        ensures
            r == spec_item_uint(self@),
    {
        match &self.value {
            Option::Some(v) => v.try_into_uint(),
            Option::None => Err(ItemError::InvalidValueType {
                expected: AMvalType::Uint.bits(),
                unexpected: AMvalType::Void.bits(),
            }),
        }
    }

    /// Extracts a 64-bit float as its bit pattern; fails when the item holds
    /// any other kind of value, or none.
    pub fn try_into_f64_bits(&self) -> (r: Result<u64, ItemError>)
        ensures
            r == spec_item_f64_bits(self@),
    {
        match &self.value {
            Option::Some(v) => v.try_into_f64_bits(),
            Option::None => Err(ItemError::InvalidValueType {
                expected: AMvalType::F64.bits(),
                unexpected: AMvalType::Void.bits(),
            }),
        }
    }

    /// Extracts an unknown-typed value; fails when the item holds any other
    /// kind of value, or none.
    pub fn try_into_unknown(&self) -> (r: Result<AMunknownValue, ItemError>)
        ensures
            spec_item_unknown(self@) matches Ok(u) ==> (r matches Ok(v) && v@ == u),
            spec_item_unknown(self@) matches Err(e) ==> r == Err::<AMunknownValue, ItemError>(e),
    {
        match &self.value {
            Option::Some(v) => v.try_into_unknown(),
            Option::None => Err(ItemError::InvalidValueType {
                expected: AMvalType::Unknown.bits(),
                unexpected: AMvalType::Void.bits(),
            }),
        }
    }

    /// Extracts the whole scalar; fails unless the item holds a scalar of
    /// any kind.
    pub fn try_into_scalar(&self) -> (r: Result<Scalar, ItemError>)
        ensures
            spec_item_scalar(self@) matches Ok(s) ==> (r matches Ok(v) && v@ == s),
            spec_item_scalar(self@) matches Err(e) ==> r == Err::<Scalar, ItemError>(e),
    {
        match &self.value {
            Option::Some(v) => v.try_into_scalar(),
            Option::None => Err(ItemError::InvalidValueType {
                expected: crate::tag::SCALAR_VALUE_MASK,
                unexpected: AMvalType::Void.bits(),
            }),
        }
    }

    /// Extracts a change's binary encoding; fails when the item holds any
    /// other kind of value, or none.
    pub fn try_into_change(&self) -> (r: Result<Vec<u8>, ItemError>)
        ensures
            spec_item_change(self@) matches Ok(b) ==> (r matches Ok(v) && v@ == b),
            spec_item_change(self@) matches Err(e) ==> r == Err::<Vec<u8>, ItemError>(e),
    {
        match &self.value {
            Option::Some(v) => v.try_into_change(),
            Option::None => Err(ItemError::InvalidValueType {
                expected: AMvalType::Change.bits(),
                unexpected: AMvalType::Void.bits(),
            }),
        }
    }

    /// Extracts a synchronization "have" record's heads; fails when the item
    /// holds any other kind of value, or none.
    pub fn try_into_sync_have(&self) -> (r: Result<Vec<Vec<u8>>, ItemError>)
        ensures
            spec_item_sync_have(self@) matches Ok(h) ==> (r matches Ok(v) && v.deep_view() == h),
            spec_item_sync_have(self@) matches Err(e) ==> r == Err::<Vec<Vec<u8>>, ItemError>(e),
    {
        match &self.value {
            Option::Some(v) => v.try_into_sync_have(),
            Option::None => Err(ItemError::InvalidValueType {
                expected: AMvalType::SyncHave.bits(),
                unexpected: AMvalType::Void.bits(),
            }),
        }
    }

    /// Extracts a synchronization message's encoding; fails when the item
    /// holds any other kind of value, or none.
    pub fn try_into_sync_message(&self) -> (r: Result<Vec<u8>, ItemError>)
        ensures
            spec_item_sync_message(self@) matches Ok(b) ==> (r matches Ok(v) && v@ == b),
            spec_item_sync_message(self@) matches Err(e) ==> r == Err::<Vec<u8>, ItemError>(e),
    {
        match &self.value {
            Option::Some(v) => v.try_into_sync_message(),
            Option::None => Err(ItemError::InvalidValueType {
                expected: AMvalType::SyncMessage.bits(),
                unexpected: AMvalType::Void.bits(),
            }),
        }
    }

    /// Extracts synchronization session state; fails when the item holds any
    /// other kind of value, or none.
    pub fn try_into_sync_state(&self) -> (r: Result<Vec<u8>, ItemError>)
        ensures
            spec_item_sync_state(self@) matches Ok(b) ==> (r matches Ok(v) && v@ == b),
            spec_item_sync_state(self@) matches Err(e) ==> r == Err::<Vec<u8>, ItemError>(e),
    {
        match &self.value {
            Option::Some(v) => v.try_into_sync_state(),
            Option::None => Err(ItemError::InvalidValueType {
                expected: AMvalType::SyncState.bits(),
                unexpected: AMvalType::Void.bits(),
            }),
        }
    }

    /// Extracts a document's identity token; fails when the item holds any
    /// other kind of value, or none.
    pub fn doc_token(&self) -> (r: Result<u64, ItemError>)
        ensures
            r == spec_item_doc(self@),
    {
        match &self.value {
            Option::Some(v) => v.doc_token(),
            Option::None => Err(ItemError::InvalidValueType {
                expected: AMvalType::Doc.bits(),
                unexpected: AMvalType::Void.bits(),
            }),
        }
    }

    /// The memoized hex projection of an actor identifier; fails, unchanged,
    /// when the item holds any other kind of value, or none.
    pub fn actor_hex(&mut self) -> (r: Result<String, ItemError>)
        requires
            old(self).wf(),
        ensures
            final(self)@ == old(self)@,
            final(self).wf(),
            spec_item_actor_hex(old(self)@) matches Ok(h) ==> (r matches Ok(v) && v@ == h
                && !final(self).projection_empty()),
            spec_item_actor_hex(old(self)@) matches Err(e) ==> r == Err::<String, ItemError>(e),
    {
        match &mut self.value {
            Option::Some(v) => v.actor_hex(),
            Option::None => Err(ItemError::InvalidValueType {
                expected: AMvalType::ActorId.bits(),
                unexpected: AMvalType::Void.bits(),
            }),
        }
    }

    /// The memoized foreign projection of a change; fails, unchanged, when
    /// the item holds any other kind of value, or none.
    pub fn change_span(&mut self) -> (r: Result<Vec<u8>, ItemError>)
        requires
            old(self).wf(),
        ensures
            final(self)@ == old(self)@,
            final(self).wf(),
            spec_item_change_span(old(self)@) matches Ok(h) ==> (r matches Ok(v) && v@ == h
                && !final(self).projection_empty()),
            spec_item_change_span(old(self)@) matches Err(e) ==> r == Err::<Vec<u8>, ItemError>(e),
    {
        match &mut self.value {
            Option::Some(v) => v.change_span(),
            Option::None => Err(ItemError::InvalidValueType {
                expected: AMvalType::Change.bits(),
                unexpected: AMvalType::Void.bits(),
            }),
        }
    }

    /// Replaces the engine document behind a document item; fails, handing
    /// the replacement back, when the item holds any other kind of value, or
    /// none.
    pub fn swap_doc(&mut self, new_doc: automerge::AutoCommit) -> (r: Result<
        automerge::AutoCommit,
        (automerge::AutoCommit, ItemError),
    >)
        ensures
            final(self)@ == old(self)@,
            old(self).wf() ==> final(self).wf(),
            spec_item_doc(old(self)@) is Ok ==> r is Ok,
            spec_item_doc(old(self)@) matches Err(e) ==> (r matches Err((_, e2)) && e2 == e),
    {
        match &mut self.value {
            Option::Some(v) => v.swap_doc(new_doc),
            Option::None => Err(
                (
                    new_doc,
                    ItemError::InvalidValueType {
                        expected: AMvalType::Doc.bits(),
                        unexpected: AMvalType::Void.bits(),
                    },
                ),
            ),
        }
    }

    /// The compound extraction: the generic value and the owning object
    /// identifier, both of which must be present; a missing object
    /// identifier outranks every other failure.
    pub fn try_into_value_obj_id(&self) -> (r: Result<(GenValue, AMobjId), ItemError>)
        ensures
            spec_item_value_obj_id(self@) matches Ok((g, o)) ==> (r matches Ok(p) && p.0@ == g
                && p.1@ == o),
            spec_item_value_obj_id(self@) matches Err(e) ==> r == Err::<
                (GenValue, AMobjId),
                ItemError,
            >(e),
    {
        match (&self.obj_id, &self.value) {
            (Option::None, _) => Err(ItemError::InvalidObjId),
            (Option::Some(_), Option::None) => Err(ItemError::InvalidValueType {
                expected: GENERIC_VALUE_MASK,
                unexpected: AMvalType::Void.bits(),
            }),
            (Option::Some(o), Option::Some(v)) => match v {
                TaggedValue::Generic(g) => Ok((g.duplicated(), o.duplicated())),
                _ => Err(ItemError::InvalidValueType {
                    expected: GENERIC_VALUE_MASK,
                    unexpected: v.tag().bits(),
                }),
            },
        }
    }
}

impl vstd::std_specs::cmp::PartialEqSpecImpl for Item {
    open spec fn obeys_eq_spec() -> bool {
        true
    }

    open spec fn eq_spec(&self, other: &Self) -> bool {
        self@ == other@
    }
}

impl PartialEq for Item {
    fn eq(&self, other: &Self) -> (r: bool) {
        let index_eq = match (&self.index, &other.index) {
            (Option::Some(a), Option::Some(b)) => *a == *b,
            (Option::None, Option::None) => true,
            _ => false,
        };
        let obj_id_eq = match (&self.obj_id, &other.obj_id) {
            (Option::Some(a), Option::Some(b)) => *a == *b,
            (Option::None, Option::None) => true,
            _ => false,
        };
        let value_eq = match (&self.value, &other.value) {
            (Option::Some(a), Option::Some(b)) => *a == *b,
            (Option::None, Option::None) => true,
            _ => false,
        };
        index_eq && obj_id_eq && value_eq
    }
}

} // verus!
