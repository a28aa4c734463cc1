//! Reference counting, the exclusive-access gate, and handle equality.

use am_item::boundary::AMitemEqual;
use am_item::boundary::AMitemFromInt;
use am_item::boundary::AMitemRefCount;
use am_item::boundary::AMitemToChange;
use am_item::boundary::AMitemToDoc;
use am_item::boundary::AMitemToSyncState;
use am_item::error::ItemError;
use am_item::handle::AMitem;
use am_item::item::AMindex;
use am_item::item::AMobjId;
use am_item::scalar::GenValue;
use am_item::scalar::Scalar;
use am_item::value::TaggedValue;

#[test]
fn duplicate_raises_the_count_and_release_lowers_it() {
    let mut item = AMitemFromInt(9);
    assert_eq!(item.reference_count(), 1);
    item.duplicate();
    item.duplicate();
    item.duplicate();
    assert_eq!(item.reference_count(), 4);
    assert_eq!(AMitemRefCount(Some(&item)), 4);

    let item = match item.release() {
        Some(h) => h,
        None => panic!("three aliases remain"),
    };
    let item = match item.release() {
        Some(h) => h,
        None => panic!("two aliases remain"),
    };
    let item = match item.release() {
        Some(h) => h,
        None => panic!("one alias remains"),
    };
    assert_eq!(item.reference_count(), 1);
    assert_eq!(am_item::boundary::AMitemToInt(Some(&item)), 9);
    assert!(item.release().is_none());
}

#[test]
fn mutation_succeeds_only_when_uniquely_owned() {
    let mut item = AMitem::from_value(TaggedValue::SyncState(vec![1, 2]));
    // Count is one: the mutation goes through.
    assert!(item.try_set_sync_state(vec![3, 4]) == Ok(()));
    assert_eq!(AMitemToSyncState(Some(&item)), Some(vec![3, 4]));

    // A second alias denies mutation.
    item.duplicate();
    assert!(item.try_set_sync_state(vec![5, 6]) == Err(ItemError::ExclusiveAccessUnavailable));
    assert_eq!(AMitemToSyncState(Some(&item)), None);

    // Releasing the extra alias restores exclusive access.
    let mut item = match item.release() {
        Some(h) => h,
        None => panic!("one alias remains"),
    };
    assert!(item.try_set_sync_state(vec![7]) == Ok(()));
    assert_eq!(AMitemToSyncState(Some(&item)), Some(vec![7]));
}

#[test]
fn mutation_on_the_wrong_kind_reports_the_kind() {
    let mut item = AMitemFromInt(1);
    assert!(
        item.try_set_sync_state(vec![9])
            == Err(ItemError::InvalidValueType {
                expected: am_item::tag::AMvalType::SyncState.bits(),
                unexpected: am_item::tag::AMvalType::Int.bits(),
            })
    );
}

#[test]
fn gated_boundary_extractions_deny_aliased_handles() {
    let mut doc_item = AMitem::from_value(TaggedValue::from_doc(automerge::AutoCommit::new(), 11));
    assert_eq!(AMitemToDoc(Some(&doc_item)), Some(11));
    doc_item.duplicate();
    assert_eq!(AMitemToDoc(Some(&doc_item)), None);

    let mut state_item = AMitem::from_value(TaggedValue::SyncState(vec![1]));
    assert_eq!(AMitemToSyncState(Some(&state_item)), Some(vec![1]));
    state_item.duplicate();
    assert_eq!(AMitemToSyncState(Some(&state_item)), None);
}

#[test]
fn doc_swap_is_gated_and_keeps_the_token() {
    let mut item = AMitem::from_value(TaggedValue::from_doc(automerge::AutoCommit::new(), 21));
    match item.try_swap_doc(automerge::AutoCommit::new()) {
        Ok(_prev) => {}
        Err(_) => panic!("a uniquely owned document accepts the swap"),
    }
    assert_eq!(AMitemToDoc(Some(&item)), Some(21));

    item.duplicate();
    match item.try_swap_doc(automerge::AutoCommit::new()) {
        Ok(_) => panic!("an aliased document must deny the swap"),
        Err((_given_back, e)) => assert!(e == ItemError::ExclusiveAccessUnavailable),
    }
}

#[test]
fn equality_delegates_to_the_item_and_ignores_aliases() {
    let mut a = AMitem::indexed(
        AMindex::Key("k".to_string()),
        AMobjId::Root,
        TaggedValue::Generic(GenValue::Scalar(Scalar::Int(5))),
    );
    let b = AMitem::indexed(
        AMindex::Key("k".to_string()),
        AMobjId::Root,
        TaggedValue::Generic(GenValue::Scalar(Scalar::Int(5))),
    );
    assert!(AMitemEqual(Some(&a), Some(&b)));
    // Distinct alias counts do not break equality.
    a.duplicate();
    assert!(AMitemEqual(Some(&a), Some(&b)));
    assert!(a == b);

    // A differing key breaks it.
    let c = AMitem::indexed(
        AMindex::Key("other".to_string()),
        AMobjId::Root,
        TaggedValue::Generic(GenValue::Scalar(Scalar::Int(5))),
    );
    assert!(!AMitemEqual(Some(&a), Some(&c)));

    // A differing position kind breaks it too.
    let d = AMitem::indexed(
        AMindex::Pos(0),
        AMobjId::Root,
        TaggedValue::Generic(GenValue::Scalar(Scalar::Int(5))),
    );
    assert!(!AMitemEqual(Some(&a), Some(&d)));
}

#[test]
fn documents_compare_by_identity_not_content() {
    // Two distinct documents with identical (empty) content: distinct
    // identity tokens, so they never compare equal.
    let a = AMitem::from_value(TaggedValue::from_doc(automerge::AutoCommit::new(), 1));
    let b = AMitem::from_value(TaggedValue::from_doc(automerge::AutoCommit::new(), 2));
    assert!(!AMitemEqual(Some(&a), Some(&b)));

    // A document value equals a handle carrying the same instance's token.
    let c = AMitem::from_value(TaggedValue::from_doc(automerge::AutoCommit::new(), 1));
    assert!(AMitemEqual(Some(&a), Some(&c)));
}

#[test]
fn equality_ignores_memoized_projections() {
    let actor = automerge::ActorId::from(&[0xde, 0xad][..]);
    let mut a = AMitem::from_value(TaggedValue::from_actor(actor.clone()));
    let b = AMitem::from_value(TaggedValue::from_actor(actor));
    // Request the projection on one side only: its memo slot fills.
    assert!(a.item.actor_hex() == Ok("dead".to_string()));
    assert!(AMitemEqual(Some(&a), Some(&b)));
}

#[test]
fn change_projection_is_gated_at_the_boundary() {
    let value = TaggedValue::Change {
        bytes: vec![1, 2, 3],
        hash: vec![9u8; 32],
        span_memo: None,
    };
    let mut item = AMitem::from_value(value);
    assert_eq!(AMitemToChange(Some(&item)), Some(vec![9u8; 32]));

    // The memoizing projection through the handle is gated the same way.
    assert!(item.try_change_span() == Ok(vec![9u8; 32]));

    item.duplicate();
    assert_eq!(AMitemToChange(Some(&item)), None);
    assert!(item.try_change_span() == Err(ItemError::ExclusiveAccessUnavailable));
}
