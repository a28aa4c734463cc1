//! The shared item handle: reference-counted ownership of exactly one item.
//!
//! A handle family is modelled as one cell: the item together with the
//! number of live aliases.  `duplicate` registers one more alias, `release`
//! unregisters one and destroys the item when the last alias goes;
//! operations that need a mutable view of a change, document, or
//! synchronization-state payload are gated on the count being exactly one,
//! and are denied — not queued — otherwise.  Handle equality delegates to
//! the wrapped item and ignores the count.

use vstd::prelude::*;

use crate::error::ItemError;
use crate::item::AMindex;
use crate::item::AMobjId;
use crate::item::Item;
use crate::item::ItemView;
use crate::item::spec_item_change_span;
use crate::item::spec_item_doc;
use crate::item::spec_item_mismatch;
use crate::tag::AMvalType;
use crate::value::TaggedValue;
use crate::value::ValueView;

verus! {

/// An item within a result: reference-counted shared ownership of one
/// [`Item`].
pub struct AMitem {
    /// The wrapped item.
    pub item: Item,
    /// The number of live aliases sharing the item.
    pub count: usize,
}

/// The mathematical content of an [`AMitem`]: the item's content and the
/// alias count.
pub struct HandleView {
    pub item: ItemView,
    pub count: usize,
}

impl View for AMitem {
    type V = HandleView;

    open spec fn view(&self) -> HandleView {
        HandleView { item: self.item@, count: self.count }
    }
}

/// What registering one more alias does to a handle's content: the item is
/// untouched and the count grows by one.
pub open spec fn spec_duplicate(h: HandleView) -> HandleView
    recommends
        h.count < usize::MAX,
{
    HandleView { item: h.item, count: (h.count + 1) as usize }
}

/// What unregistering one alias does to a handle's content: with other
/// aliases remaining the count shrinks by one; the last release destroys the
/// item.
pub open spec fn spec_release(h: HandleView) -> Option<HandleView> {
    if h.count <= 1 {
        Option::None
    } else {
        Option::Some(HandleView { item: h.item, count: (h.count - 1) as usize })
    }
}

impl AMitem {
    /// Well-formed content: the wrapped item is well formed and at least one
    /// alias is live.
    pub open spec fn wf(self) -> bool {
        self.item.wf() && self.count >= 1
    }

    /// A fresh handle, the only alias of the given item.
    pub fn new(item: Item) -> (r: AMitem)
        ensures
            r@.item == item@,
            r@.count == 1,
            item.wf() ==> r.wf(),
    {
        AMitem { item, count: 1 }
    }

    /// A fresh handle on an item addressed directly by object identifier: no
    /// locator, the given object identifier, the given value.
    pub fn exact(obj_id: AMobjId, value: TaggedValue) -> (r: AMitem)
        ensures
            r@.item.index is None,
            r@.item.obj_id == Option::Some(obj_id@),
            r@.item.value == Option::Some(value@),
            r@.count == 1,
            value.wf() ==> r.wf(),
    {
        AMitem { item: Item { index: None, obj_id: Some(obj_id), value: Some(value) }, count: 1 }
    }

    /// A fresh handle on an item found by a positional or keyed container
    /// traversal: the given locator, object identifier, and value.
    pub fn indexed(index: AMindex, obj_id: AMobjId, value: TaggedValue) -> (r: AMitem)
        ensures
            r@.item.index == Option::Some(index@),
            r@.item.obj_id == Option::Some(obj_id@),
            r@.item.value == Option::Some(value@),
            r@.count == 1,
            value.wf() ==> r.wf(),
    {
        AMitem {
            item: Item { index: Some(index), obj_id: Some(obj_id), value: Some(value) },
            count: 1,
        }
    }

    /// A fresh handle on an item that references a container without
    /// materializing its contents: just the object identifier.
    pub fn from_obj_id(obj_id: AMobjId) -> (r: AMitem)
        ensures
            r@.item.index is None,
            r@.item.obj_id == Option::Some(obj_id@),
            r@.item.value is None,
            r@.count == 1,
            r.wf(),
    {
        AMitem { item: Item { index: None, obj_id: Some(obj_id), value: None }, count: 1 }
    }

    /// A fresh handle on an item holding just a value.
    pub fn from_value(value: TaggedValue) -> (r: AMitem)
        ensures
            r@.item.index is None,
            r@.item.obj_id is None,
            r@.item.value == Option::Some(value@),
            r@.count == 1,
            value.wf() ==> r.wf(),
    {
        AMitem { item: Item { index: None, obj_id: None, value: Some(value) }, count: 1 }
    }

    /// A read-only view of the wrapped item.
    pub fn as_item(&self) -> (r: &Item)
        ensures
            *r == self.item,
    {
        &self.item
    }

    /// Registers one more live alias of the item.  Never fails; the item is
    /// untouched and the count grows by one.
    pub fn duplicate(&mut self)
        requires
            old(self).count < usize::MAX,
        ensures
            final(self).item == old(self).item,
            final(self).count == old(self).count + 1,
            final(self)@ == spec_duplicate(old(self)@),
    {
        self.count = self.count + 1;
    }

    /// Unregisters one live alias.  When other aliases remain, the handle
    /// survives with the count lowered by one; when the last alias goes, the
    /// item is destroyed and nothing is returned.
    pub fn release(self) -> (r: Option<AMitem>)
        ensures
            self.count <= 1 ==> r is None,
            self.count > 1 ==> (r matches Some(h) && h.item == self.item && h.count == self.count
                - 1),
            spec_release(self@) matches Option::Some(v) ==> (r matches Some(h) && h@ == v),
            spec_release(self@) is None ==> r is None,
    {
        if self.count > 1 {
            Some(AMitem { item: self.item, count: self.count - 1 })
        } else {
            None
        }
    }

    /// The number of live aliases of the wrapped item.
    pub fn reference_count(&self) -> (r: usize)
        ensures
            r == self@.count,
    {
        self.count
    }

    /// The memoized foreign projection of a change payload.  Exclusive
    /// access is required: with more than one live alias the request is
    /// denied and nothing changes.
    pub fn try_change_span(&mut self) -> (r: Result<Vec<u8>, ItemError>)
        requires
            old(self).item.wf(),
        ensures
            final(self)@.item == old(self)@.item,
            final(self).count == old(self).count,
            final(self).item.wf(),
            old(self).count != 1 ==> r == Err::<Vec<u8>, ItemError>(
                ItemError::ExclusiveAccessUnavailable,
            ) && *final(self) == *old(self),
            old(self).count == 1 ==> ((spec_item_change_span(old(self)@.item) matches Ok(h) ==> (
            r matches Ok(v) && v@ == h)) && (spec_item_change_span(old(self)@.item) matches Err(e)
                ==> r == Err::<Vec<u8>, ItemError>(e))),
    {
        if self.count != 1 {
            return Err(ItemError::ExclusiveAccessUnavailable);
        }
        self.item.change_span()
    }

    /// Replaces the engine document behind a document payload, handing the
    /// previous document back.  Exclusive access is required: with more than
    /// one live alias the request is denied and the replacement is handed
    /// back untouched.
    pub fn try_swap_doc(&mut self, new_doc: automerge::AutoCommit) -> (r: Result<
        automerge::AutoCommit,
        (automerge::AutoCommit, ItemError),
    >)
        ensures
            final(self)@.item == old(self)@.item,
            final(self).count == old(self).count,
            old(self).item.wf() ==> final(self).item.wf(),
            old(self).count != 1 ==> (r matches Err((_, e)) && e
                == ItemError::ExclusiveAccessUnavailable),
            old(self).count == 1 ==> (spec_item_doc(old(self)@.item) is Ok ==> r is Ok),
            old(self).count == 1 ==> (spec_item_doc(old(self)@.item) matches Err(e) ==> (
            r matches Err((_, e2)) && e2 == e)),
    {
        if self.count != 1 {
            return Err((new_doc, ItemError::ExclusiveAccessUnavailable));
        }
        self.item.swap_doc(new_doc)
    }

    /// Replaces the content of a synchronization-state payload.  Exclusive
    /// access is required: with more than one live alias the request is
    /// denied and nothing changes.
    pub fn try_set_sync_state(&mut self, bytes: Vec<u8>) -> (r: Result<(), ItemError>)
        ensures
            final(self)@.item.index == old(self)@.item.index,
            final(self)@.item.obj_id == old(self)@.item.obj_id,
            final(self).count == old(self).count,
            old(self).item.wf() ==> final(self).item.wf(),
            old(self).count != 1 ==> r == Err::<(), ItemError>(
                ItemError::ExclusiveAccessUnavailable,
            ) && *final(self) == *old(self),
            (old(self).count == 1 && (old(self)@.item.value matches Option::Some(
                ValueView::SyncState(_),
            ))) ==> (r is Ok && final(self)@.item.value == Option::Some(
                ValueView::SyncState(bytes@),
            )),
            (old(self).count == 1 && !(old(self)@.item.value matches Option::Some(
                ValueView::SyncState(_),
            ))) ==> (r == Err::<(), ItemError>(
                spec_item_mismatch(AMvalType::SyncState.spec_bits(), old(self)@.item),
            ) && final(self)@.item.value == old(self)@.item.value),
    {
        if self.count != 1 {
            return Err(ItemError::ExclusiveAccessUnavailable);
        }
        match &mut self.item.value {
            Option::Some(TaggedValue::SyncState(b)) => {
                *b = bytes;
                Ok(())
            },
            Option::Some(v) => Err(ItemError::InvalidValueType {
                expected: AMvalType::SyncState.bits(),
                unexpected: v.tag().bits(),
            }),
            Option::None => Err(ItemError::InvalidValueType {
                expected: AMvalType::SyncState.bits(),
                unexpected: AMvalType::Void.bits(),
            }),
        }
    }
}

impl Default for AMitem {
    /// The default handle: the only alias of the void item.
    fn default() -> (r: Self)
        ensures
            r@.item.index is None,
            r@.item.obj_id is None,
            r@.item.value is None,
            r@.count == 1,
            r.wf(),
    {
        AMitem { item: Item { index: None, obj_id: None, value: None }, count: 1 }
    }
}

impl vstd::std_specs::cmp::PartialEqSpecImpl for AMitem {
    open spec fn obeys_eq_spec() -> bool {
        true
    }

    open spec fn eq_spec(&self, other: &Self) -> bool {
        self@.item == other@.item
    }
}

impl PartialEq for AMitem {
    fn eq(&self, other: &Self) -> (r: bool) {
        self.item == other.item
    }
}

} // verus!
