//! End-to-end scenarios over the boundary functions, including the sentinel
//! policy for absent (null) handles.

use am_item::boundary::AMitemEqual;
use am_item::boundary::AMitemFromChangeHash;
use am_item::boundary::AMitemFromInt;
use am_item::boundary::AMitemIdxType;
use am_item::boundary::AMitemKey;
use am_item::boundary::AMitemObjId;
use am_item::boundary::AMitemPos;
use am_item::boundary::AMitemRefCount;
use am_item::boundary::AMitemToActorId;
use am_item::boundary::AMitemToBool;
use am_item::boundary::AMitemToBytes;
use am_item::boundary::AMitemToChange;
use am_item::boundary::AMitemToChangeHash;
use am_item::boundary::AMitemToCounter;
use am_item::boundary::AMitemToDoc;
use am_item::boundary::AMitemToF64Bits;
use am_item::boundary::AMitemToInt;
use am_item::boundary::AMitemToStr;
use am_item::boundary::AMitemToSyncHave;
use am_item::boundary::AMitemToSyncMessage;
use am_item::boundary::AMitemToSyncState;
use am_item::boundary::AMitemToTimestamp;
use am_item::boundary::AMitemToUint;
use am_item::boundary::AMitemToUnknown;
use am_item::boundary::AMitemValType;
use am_item::boundary::F64_SENTINEL_BITS;
use am_item::error::ItemError;
use am_item::handle::AMitem;
use am_item::item::AMindex;
use am_item::item::AMobjId;
use am_item::scalar::GenValue;
use am_item::scalar::Scalar;
use am_item::tag::AMidxType;
use am_item::tag::AMvalType;
use am_item::tag::GENERIC_VALUE_MASK;
use am_item::value::TaggedValue;

#[test]
fn indexed_item_with_key_and_int() {
    let value = TaggedValue::Generic(GenValue::Scalar(Scalar::Int(42)));
    let item = AMitem::indexed(AMindex::Key("x".to_string()), AMobjId::Root, value);

    assert_eq!(AMitemValType(Some(&item)), AMvalType::Int);
    assert_eq!(AMitemToInt(Some(&item)), 42);

    // Extracting as a float yields the float sentinel, not a converted 42.0.
    let bits = AMitemToF64Bits(Some(&item));
    assert_eq!(bits, F64_SENTINEL_BITS);
    assert_eq!(f64::from_bits(bits), f64::MAX);

    // The item carries a key, not a position.
    assert_eq!(AMitemIdxType(Some(&item)), AMidxType::Key);
    assert_eq!(AMitemKey(Some(&item)), "x".to_string());
    assert_eq!(AMitemPos(Some(&item)), usize::MAX);

    // The owning-object identifier is present.
    assert!(matches!(AMitemObjId(Some(&item)), Some(&AMobjId::Root)));
}

#[test]
fn indexed_item_with_position() {
    let value = TaggedValue::Generic(GenValue::Scalar(Scalar::Uint(3)));
    let item = AMitem::indexed(AMindex::Pos(5), AMobjId::Root, value);

    assert_eq!(AMitemIdxType(Some(&item)), AMidxType::Pos);
    assert_eq!(AMitemPos(Some(&item)), 5);
    // The item carries a position, not a key.
    assert_eq!(AMitemKey(Some(&item)), String::new());
    assert_eq!(AMitemToUint(Some(&item)), 3);
}

#[test]
fn void_item_yields_sentinels_everywhere() {
    let item = AMitem::default();

    assert_eq!(AMitemValType(Some(&item)), AMvalType::Void);
    assert_eq!(AMitemIdxType(Some(&item)), AMidxType::Default);
    assert_eq!(AMitemToBool(Some(&item)), false);
    assert_eq!(AMitemToBytes(Some(&item)), Vec::<u8>::new());
    assert_eq!(AMitemToChangeHash(Some(&item)), Vec::<u8>::new());
    assert_eq!(AMitemToCounter(Some(&item)), i64::MAX);
    assert_eq!(AMitemToInt(Some(&item)), i64::MAX);
    assert_eq!(AMitemToF64Bits(Some(&item)), F64_SENTINEL_BITS);
    assert_eq!(AMitemToStr(Some(&item)), String::new());
    assert_eq!(AMitemToTimestamp(Some(&item)), i64::MAX);
    assert_eq!(AMitemToUint(Some(&item)), u64::MAX);
    assert!(AMitemToActorId(Some(&item)).is_none());
    assert!(AMitemToChange(Some(&item)).is_none());
    assert!(AMitemToDoc(Some(&item)).is_none());
    assert!(AMitemToSyncHave(Some(&item)).is_none());
    assert!(AMitemToSyncMessage(Some(&item)).is_none());
    assert!(AMitemToSyncState(Some(&item)).is_none());
    assert!(AMitemObjId(Some(&item)).is_none());
    assert_eq!(AMitemKey(Some(&item)), String::new());
    assert_eq!(AMitemPos(Some(&item)), usize::MAX);
    let unknown = AMitemToUnknown(Some(&item));
    assert!(unknown.bytes.is_empty());
    assert_eq!(unknown.type_code, 0);

    // The compound extraction fails for want of an object identifier.
    assert!(item.item.try_into_value_obj_id() == Err(ItemError::InvalidObjId));
}

#[test]
fn null_handle_yields_sentinels_everywhere() {
    assert_eq!(AMitemValType(None), AMvalType::Default);
    assert_eq!(AMitemIdxType(None), AMidxType::Default);
    assert_eq!(AMitemRefCount(None), 0);
    assert_eq!(AMitemToBool(None), false);
    assert_eq!(AMitemToBytes(None), Vec::<u8>::new());
    assert_eq!(AMitemToChangeHash(None), Vec::<u8>::new());
    assert_eq!(AMitemToCounter(None), i64::MAX);
    assert_eq!(AMitemToInt(None), i64::MAX);
    assert_eq!(AMitemToF64Bits(None), F64_SENTINEL_BITS);
    assert_eq!(AMitemToStr(None), String::new());
    assert_eq!(AMitemToTimestamp(None), i64::MAX);
    assert_eq!(AMitemToUint(None), u64::MAX);
    assert!(AMitemToActorId(None).is_none());
    assert!(AMitemToChange(None).is_none());
    assert!(AMitemToDoc(None).is_none());
    assert!(AMitemToSyncHave(None).is_none());
    assert!(AMitemToSyncMessage(None).is_none());
    assert!(AMitemToSyncState(None).is_none());
    assert!(AMitemObjId(None).is_none());
    assert_eq!(AMitemKey(None), String::new());
    assert_eq!(AMitemPos(None), usize::MAX);
    let unknown = AMitemToUnknown(None);
    assert!(unknown.bytes.is_empty());
    assert_eq!(unknown.type_code, 0);
    assert_eq!(AMitemEqual(None, None), false);
    assert_eq!(AMitemEqual(Some(&AMitem::default()), None), false);
    assert_eq!(AMitemEqual(None, Some(&AMitem::default())), false);
}

#[test]
fn change_hash_construction_checks_length() {
    let ok = AMitemFromChangeHash(vec![7u8; 32]);
    match ok {
        Ok(item) => {
            assert_eq!(AMitemValType(Some(&item)), AMvalType::ChangeHash);
            assert_eq!(AMitemToChangeHash(Some(&item)), vec![7u8; 32]);
        }
        Err(_) => panic!("a 32-byte hash must be accepted"),
    }

    let too_short = AMitemFromChangeHash(vec![7u8; 31]);
    assert!(too_short == Err(ItemError::InvalidChangeHashSize));
    let too_long = AMitemFromChangeHash(vec![7u8; 33]);
    assert!(too_long == Err(ItemError::InvalidChangeHashSize));
}

#[test]
fn compound_extraction_cases() {
    // Object identifier and generic value present: both come back.
    let value = TaggedValue::Generic(GenValue::Scalar(Scalar::Int(42)));
    let item = AMitem::exact(AMobjId::Root, value);
    match item.item.try_into_value_obj_id() {
        Ok((g, o)) => {
            assert!(g == GenValue::Scalar(Scalar::Int(42)));
            assert!(o == AMobjId::Root);
        }
        Err(_) => panic!("the compound extraction must succeed"),
    }

    // Object identifier present, no value.
    let bare = AMitem::from_obj_id(AMobjId::Root);
    assert!(
        bare.item.try_into_value_obj_id()
            == Err(ItemError::InvalidValueType {
                expected: GENERIC_VALUE_MASK,
                unexpected: AMvalType::Void.bits(),
            })
    );

    // Object identifier present, but the value is not the generic kind.
    let hash_value = match TaggedValue::from_hash_bytes(vec![1u8; 32]) {
        Ok(v) => v,
        Err(_) => panic!("a 32-byte hash must be accepted"),
    };
    let wrong = AMitem::exact(AMobjId::Root, hash_value);
    assert!(
        wrong.item.try_into_value_obj_id()
            == Err(ItemError::InvalidValueType {
                expected: GENERIC_VALUE_MASK,
                unexpected: AMvalType::ChangeHash.bits(),
            })
    );

    // No object identifier at all outranks the missing value.
    let nothing = AMitem::default();
    assert!(nothing.item.try_into_value_obj_id() == Err(ItemError::InvalidObjId));
}

#[test]
fn mismatched_downcast_reports_both_kinds() {
    let item = AMitemFromInt(3);
    assert!(
        item.item.try_into_str()
            == Err(ItemError::InvalidValueType {
                expected: AMvalType::Str.bits(),
                unexpected: AMvalType::Int.bits(),
            })
    );
    assert!(
        item.item.try_into_bool()
            == Err(ItemError::InvalidValueType {
                expected: AMvalType::Bool.bits(),
                unexpected: AMvalType::Int.bits(),
            })
    );
}
