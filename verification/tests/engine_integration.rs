//! The engine-facing construction paths, exercised with real engine values:
//! actor identifiers, changes, change hashes, synchronization artifacts, and
//! query results.

use am_item::boundary::AMitemToActorId;
use am_item::boundary::AMitemToBytes;
use am_item::boundary::AMitemToChange;
use am_item::boundary::AMitemToChangeHash;
use am_item::boundary::AMitemToSyncHave;
use am_item::boundary::AMitemToSyncMessage;
use am_item::boundary::AMitemToSyncState;
use am_item::boundary::AMitemValType;
use am_item::handle::AMitem;
use am_item::item::AMobjId;
use am_item::scalar::GenValue;
use am_item::scalar::ObjKind;
use am_item::scalar::Scalar;
use am_item::tag::AMvalType;
use am_item::value::TaggedValue;
use automerge::ReadDoc;
use automerge::sync::SyncDoc;
use automerge::transaction::Transactable;

fn doc_with_one_change() -> (automerge::AutoCommit, automerge::Change) {
    let mut doc = automerge::AutoCommit::new();
    doc.put(&automerge::ROOT, "key", 1i64).expect("putting a value succeeds");
    doc.commit();
    let change = doc.get_last_local_change().expect("one change was committed");
    (doc, change)
}

#[test]
fn actor_id_projection_is_its_hex_spelling() {
    let actor = automerge::ActorId::from(&[0xde, 0xad, 0xbe, 0xef][..]);
    let expected = actor.to_hex_string();
    let item = AMitem::from_value(TaggedValue::from_actor(actor));
    assert_eq!(AMitemValType(Some(&item)), AMvalType::ActorId);
    assert_eq!(AMitemToActorId(Some(&item)), Some(expected.clone()));
    assert_eq!(expected, "deadbeef".to_string());
}

#[test]
fn actor_id_projection_spells_every_digit() {
    let bytes = [0x01u8, 0x23, 0x45, 0x67, 0x89, 0xab, 0xcd, 0xef];
    let actor = automerge::ActorId::from(&bytes[..]);
    let item = AMitem::from_value(TaggedValue::from_actor(actor.clone()));
    assert_eq!(AMitemToActorId(Some(&item)), Some("0123456789abcdef".to_string()));
    assert_eq!(AMitemToActorId(Some(&item)), Some(actor.to_hex_string()));
}

#[test]
fn actor_id_projection_is_memoized() {
    let actor = automerge::ActorId::from(&[0x0a, 0xff][..]);
    let mut item = AMitem::from_value(TaggedValue::from_actor(actor));
    let first = item.item.actor_hex();
    let second = item.item.actor_hex();
    assert!(first == Ok("0aff".to_string()));
    assert!(first == second);
}

#[test]
fn change_wraps_with_its_hash_as_projection() {
    let (_doc, change) = doc_with_one_change();
    let raw = change.raw_bytes().to_vec();
    let hash = change.hash().0.to_vec();

    let item = AMitem::from_value(TaggedValue::from_change(change));
    assert_eq!(AMitemValType(Some(&item)), AMvalType::Change);
    assert!(item.item.try_into_change() == Ok(raw));
    assert_eq!(AMitemToChange(Some(&item)), Some(hash));
}

#[test]
fn change_hash_wraps_to_its_bytes() {
    let (_doc, change) = doc_with_one_change();
    let hash = change.hash();
    let item = AMitem::from_value(TaggedValue::from_change_hash(hash));
    assert_eq!(AMitemValType(Some(&item)), AMvalType::ChangeHash);
    assert_eq!(AMitemToChangeHash(Some(&item)), hash.0.to_vec());
}

#[test]
fn sync_message_wraps_to_its_encoding() {
    let (mut doc, _change) = doc_with_one_change();
    let mut state = automerge::sync::State::new();
    let message = doc
        .sync()
        .generate_sync_message(&mut state)
        .expect("a fresh peer needs a message");
    let expected = message.clone().encode();

    let item = AMitem::from_value(TaggedValue::from_message(message));
    assert_eq!(AMitemValType(Some(&item)), AMvalType::SyncMessage);
    assert_eq!(AMitemToSyncMessage(Some(&item)), Some(expected));
}

#[test]
fn sync_state_wraps_to_its_encoding() {
    let state = automerge::sync::State::new();
    let expected = state.encode();
    let item = AMitem::from_value(TaggedValue::from_state(state));
    assert_eq!(AMitemValType(Some(&item)), AMvalType::SyncState);
    assert_eq!(AMitemToSyncState(Some(&item)), Some(expected));
}

#[test]
fn sync_have_wraps_to_its_heads() {
    let (_doc, change) = doc_with_one_change();
    let hash = change.hash();
    let mut have = automerge::sync::Have::default();
    have.last_sync.push(hash);

    let item = AMitem::from_value(TaggedValue::from_have(have));
    assert_eq!(AMitemValType(Some(&item)), AMvalType::SyncHave);
    assert_eq!(AMitemToSyncHave(Some(&item)), Some(vec![hash.0.to_vec()]));
}

#[test]
fn empty_sync_have_wraps_to_no_heads() {
    let item = AMitem::from_value(TaggedValue::from_have(automerge::sync::Have::default()));
    assert_eq!(AMitemToSyncHave(Some(&item)), Some(Vec::new()));
}

#[test]
fn engine_scalars_arrive_with_their_kinds() {
    let cases: Vec<(automerge::Value<'static>, Scalar)> = vec![
        (automerge::Value::int(-4), Scalar::Int(-4)),
        (automerge::Value::uint(4), Scalar::Uint(4)),
        (automerge::Value::f64(2.5), Scalar::F64Bits((2.5f64).to_bits())),
        (automerge::Value::counter(10), Scalar::Counter(10)),
        (automerge::Value::timestamp(99), Scalar::Timestamp(99)),
        (automerge::Value::from(true), Scalar::Boolean(true)),
        (automerge::Value::str("hi"), Scalar::Str("hi".to_string())),
        (automerge::Value::bytes(vec![1, 2]), Scalar::Bytes(vec![1, 2])),
        (
            automerge::Value::Scalar(std::borrow::Cow::Owned(automerge::ScalarValue::Null)),
            Scalar::Null,
        ),
    ];
    for (engine_value, expected) in cases {
        let value = TaggedValue::from_engine_value(engine_value);
        let item = AMitem::from_value(value);
        assert!(item.item.try_into_scalar() == Ok(expected));
    }
}

#[test]
fn engine_objects_arrive_with_their_kinds() {
    let value = TaggedValue::from_engine_value(automerge::Value::Object(automerge::ObjType::List));
    assert!(value == TaggedValue::Generic(GenValue::Object(ObjKind::List)));
    let value = TaggedValue::from_engine_value(automerge::Value::Object(automerge::ObjType::Map));
    assert!(value == TaggedValue::Generic(GenValue::Object(ObjKind::MapObj)));
}

#[test]
fn engine_obj_ids_are_modelled_by_counter_and_actor() {
    assert!(AMobjId::from_engine(automerge::ROOT) == AMobjId::Root);

    let mut doc = automerge::AutoCommit::new();
    let actor_bytes = doc.get_actor().to_bytes().to_vec();
    let list = doc
        .put_object(&automerge::ROOT, "list", automerge::ObjType::List)
        .expect("creating an object succeeds");
    let modelled = AMobjId::from_engine(list.clone());
    match modelled {
        AMobjId::Root => panic!("a created object is not the root"),
        AMobjId::Id { counter: _, actor } => assert_eq!(actor, actor_bytes),
    }

    // The model keeps engine equality: the same engine identifier models
    // equally twice, and differs from the root.
    assert!(AMobjId::from_engine(list.clone()) == AMobjId::from_engine(list));
    assert!(!(AMobjId::from_engine(automerge::ROOT)
        == AMobjId::from_engine(doc
            .put_object(&automerge::ROOT, "map", automerge::ObjType::Map)
            .expect("creating an object succeeds"))));
}

#[test]
fn engine_query_results_round_trip_through_items() {
    let mut doc = automerge::AutoCommit::new();
    doc.put(&automerge::ROOT, "n", 7i64).expect("putting a value succeeds");
    let (value, obj_id) = doc
        .get(&automerge::ROOT, "n")
        .expect("the query succeeds")
        .expect("the key is present");
    // An engine query hands back a value and an object identifier: the item
    // carries both, and the compound extraction returns them.
    let modelled_id = AMobjId::from_engine(obj_id.clone());
    let item = AMitem::exact(
        AMobjId::from_engine(obj_id),
        TaggedValue::from_engine_value(value.into_owned()),
    );
    match item.item.try_into_value_obj_id() {
        Ok((g, o)) => {
            assert!(g == GenValue::Scalar(Scalar::Int(7)));
            assert!(o == modelled_id);
        }
        Err(_) => panic!("the compound extraction must succeed"),
    }
}

#[test]
fn from_string_wraps_an_owned_string() {
    let item = AMitem::from_value(TaggedValue::from_string("abc".to_string()));
    assert_eq!(AMitemValType(Some(&item)), AMvalType::Str);
    assert_eq!(am_item::boundary::AMitemToStr(Some(&item)), "abc".to_string());
    assert_eq!(AMitemToBytes(Some(&item)), Vec::<u8>::new());
}
