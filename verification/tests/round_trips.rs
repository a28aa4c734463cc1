//! Round-trip tests: every constructor paired with its extractor gives back
//! the constructed payload, and every other extractor yields its sentinel.

use am_item::boundary::AMitemFromBool;
use am_item::boundary::AMitemFromBytes;
use am_item::boundary::AMitemFromCounter;
use am_item::boundary::AMitemFromF64Bits;
use am_item::boundary::AMitemFromInt;
use am_item::boundary::AMitemFromNull;
use am_item::boundary::AMitemFromStr;
use am_item::boundary::AMitemFromTimestamp;
use am_item::boundary::AMitemFromUint;
use am_item::boundary::AMitemToBool;
use am_item::boundary::AMitemToBytes;
use am_item::boundary::AMitemToCounter;
use am_item::boundary::AMitemToF64Bits;
use am_item::boundary::AMitemToInt;
use am_item::boundary::AMitemToStr;
use am_item::boundary::AMitemToTimestamp;
use am_item::boundary::AMitemToUint;
use am_item::boundary::AMitemToUnknown;
use am_item::boundary::AMitemValType;
use am_item::handle::AMitem;
use am_item::scalar::GenValue;
use am_item::scalar::ObjKind;
use am_item::scalar::Scalar;
use am_item::tag::AMvalType;
use am_item::tag::GENERIC_VALUE_MASK;
use am_item::tag::SCALAR_VALUE_MASK;

#[test]
fn bool_round_trip() {
    let item = AMitemFromBool(true);
    assert_eq!(AMitemValType(Some(&item)), AMvalType::Bool);
    assert_eq!(AMitemToBool(Some(&item)), true);
    // A mismatched extraction yields a sentinel, never a crash.
    assert_eq!(AMitemToInt(Some(&item)), i64::MAX);
}

#[test]
fn bytes_round_trip() {
    let item = AMitemFromBytes(vec![1, 2, 3]);
    assert_eq!(AMitemValType(Some(&item)), AMvalType::Bytes);
    assert_eq!(AMitemToBytes(Some(&item)), vec![1, 2, 3]);
    assert_eq!(AMitemToStr(Some(&item)), String::new());
}

#[test]
fn empty_bytes_round_trip() {
    let item = AMitemFromBytes(Vec::new());
    assert_eq!(AMitemValType(Some(&item)), AMvalType::Bytes);
    assert_eq!(AMitemToBytes(Some(&item)), Vec::<u8>::new());
}

#[test]
fn counter_round_trip() {
    let item = AMitemFromCounter(-7);
    assert_eq!(AMitemValType(Some(&item)), AMvalType::Counter);
    assert_eq!(AMitemToCounter(Some(&item)), -7);
    // A counter is not an integer at the boundary.
    assert_eq!(AMitemToInt(Some(&item)), i64::MAX);
}

#[test]
fn f64_bits_round_trip() {
    let bits = (1.5f64).to_bits();
    let item = AMitemFromF64Bits(bits);
    assert_eq!(AMitemValType(Some(&item)), AMvalType::F64);
    assert_eq!(f64::from_bits(AMitemToF64Bits(Some(&item))), 1.5);
    assert_eq!(AMitemToUint(Some(&item)), u64::MAX);
}

#[test]
fn int_round_trip() {
    let item = AMitemFromInt(i64::MIN);
    assert_eq!(AMitemValType(Some(&item)), AMvalType::Int);
    assert_eq!(AMitemToInt(Some(&item)), i64::MIN);
    assert_eq!(AMitemToCounter(Some(&item)), i64::MAX);
}

#[test]
fn null_has_its_own_tag() {
    let item = AMitemFromNull();
    assert_eq!(AMitemValType(Some(&item)), AMvalType::Null);
    assert_eq!(AMitemToBool(Some(&item)), false);
    assert_eq!(AMitemToInt(Some(&item)), i64::MAX);
}

#[test]
fn str_round_trip() {
    let item = AMitemFromStr("hello".to_string());
    assert_eq!(AMitemValType(Some(&item)), AMvalType::Str);
    assert_eq!(AMitemToStr(Some(&item)), "hello".to_string());
    assert_eq!(AMitemToBytes(Some(&item)), Vec::<u8>::new());
}

#[test]
fn empty_str_round_trip() {
    let item = AMitemFromStr(String::new());
    assert_eq!(AMitemValType(Some(&item)), AMvalType::Str);
    assert_eq!(AMitemToStr(Some(&item)), String::new());
}

#[test]
fn timestamp_round_trip() {
    let item = AMitemFromTimestamp(1700000000000);
    assert_eq!(AMitemValType(Some(&item)), AMvalType::Timestamp);
    assert_eq!(AMitemToTimestamp(Some(&item)), 1700000000000);
    assert_eq!(AMitemToInt(Some(&item)), i64::MAX);
}

#[test]
fn uint_round_trip() {
    let item = AMitemFromUint(u64::MAX - 1);
    assert_eq!(AMitemValType(Some(&item)), AMvalType::Uint);
    assert_eq!(AMitemToUint(Some(&item)), u64::MAX - 1);
    assert_eq!(AMitemToInt(Some(&item)), i64::MAX);
}

#[test]
fn unknown_round_trip() {
    let value = am_item::value::TaggedValue::Generic(GenValue::Scalar(Scalar::Unknown {
        type_code: 9,
        bytes: vec![4, 5],
    }));
    let item = AMitem::from_value(value);
    assert_eq!(AMitemValType(Some(&item)), AMvalType::Unknown);
    let unknown = AMitemToUnknown(Some(&item));
    assert_eq!(unknown.bytes, vec![4, 5]);
    assert_eq!(unknown.type_code, 9);
}

#[test]
fn object_reference_has_obj_type_tag() {
    let value = am_item::value::TaggedValue::Generic(GenValue::Object(ObjKind::List));
    let item = AMitem::from_value(value);
    assert_eq!(AMitemValType(Some(&item)), AMvalType::ObjType);
    assert_eq!(AMitemToInt(Some(&item)), i64::MAX);
}

#[test]
fn tag_codes_are_stable_powers_of_two() {
    assert_eq!(AMvalType::Default.bits(), 0);
    assert_eq!(AMvalType::Void.bits(), 1);
    assert_eq!(AMvalType::ActorId.bits(), 1 << 1);
    assert_eq!(AMvalType::Bool.bits(), 1 << 2);
    assert_eq!(AMvalType::Bytes.bits(), 1 << 3);
    assert_eq!(AMvalType::Change.bits(), 1 << 4);
    assert_eq!(AMvalType::ChangeHash.bits(), 1 << 5);
    assert_eq!(AMvalType::Counter.bits(), 1 << 6);
    assert_eq!(AMvalType::Doc.bits(), 1 << 7);
    assert_eq!(AMvalType::F64.bits(), 1 << 8);
    assert_eq!(AMvalType::Int.bits(), 1 << 9);
    assert_eq!(AMvalType::Null.bits(), 1 << 10);
    assert_eq!(AMvalType::ObjType.bits(), 1 << 11);
    assert_eq!(AMvalType::Str.bits(), 1 << 12);
    assert_eq!(AMvalType::SyncHave.bits(), 1 << 13);
    assert_eq!(AMvalType::SyncMessage.bits(), 1 << 14);
    assert_eq!(AMvalType::SyncState.bits(), 1 << 15);
    assert_eq!(AMvalType::Timestamp.bits(), 1 << 16);
    assert_eq!(AMvalType::Uint.bits(), 1 << 17);
    assert_eq!(AMvalType::Unknown.bits(), 1 << 18);
}

#[test]
fn masks_select_their_kinds() {
    let int_item = AMitemFromInt(1);
    let tag = AMitemValType(Some(&int_item));
    assert!(tag.in_mask(SCALAR_VALUE_MASK));
    assert!(tag.in_mask(GENERIC_VALUE_MASK));
    assert!(!tag.in_mask(AMvalType::Str.bits()));
    assert!(tag.in_mask(AMvalType::Int.bits() | AMvalType::Null.bits()));

    let obj_item = AMitem::from_value(am_item::value::TaggedValue::Generic(GenValue::Object(
        ObjKind::MapObj,
    )));
    let obj_tag = AMitemValType(Some(&obj_item));
    assert!(!obj_tag.in_mask(SCALAR_VALUE_MASK));
    assert!(obj_tag.in_mask(GENERIC_VALUE_MASK));

    assert!(!AMvalType::Default.in_mask(u32::MAX));
}

#[test]
fn scalar_extraction_accepts_every_scalar_kind() {
    let item = AMitemFromInt(5);
    assert!(item.item.try_into_scalar() == Ok(Scalar::Int(5)));

    let obj_item = AMitem::from_value(am_item::value::TaggedValue::Generic(GenValue::Object(
        ObjKind::Text,
    )));
    assert!(
        obj_item.item.try_into_scalar()
            == Err(am_item::error::ItemError::InvalidValueType {
                expected: SCALAR_VALUE_MASK,
                unexpected: AMvalType::ObjType.bits(),
            })
    );
}
