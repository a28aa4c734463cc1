//! The laws of the tagging and downcast framework, stated over the spec
//! functions that the executable functions' contracts use.

use vstd::prelude::*;

use crate::error::ItemError;
use crate::handle::AMitem;
use crate::handle::HandleView;
use crate::handle::spec_duplicate;
use crate::handle::spec_release;
use crate::item::ItemView;
use crate::item::spec_item_bool;
use crate::item::spec_item_bytes;
use crate::item::spec_item_change;
use crate::item::spec_item_change_hash;
use crate::item::spec_item_counter;
use crate::item::spec_item_doc;
use crate::item::spec_item_f64_bits;
use crate::item::spec_item_int;
use crate::item::spec_item_mismatch;
use crate::item::spec_item_str;
use crate::item::spec_item_sync_have;
use crate::item::spec_item_sync_message;
use crate::item::spec_item_sync_state;
use crate::item::spec_item_tag;
use crate::item::spec_item_timestamp;
use crate::item::spec_item_uint;
use crate::item::spec_item_unknown;
use crate::item::spec_item_value_obj_id;
use crate::scalar::GenView;
use crate::scalar::ScalarView;
use crate::tag::AMvalType;
use crate::tag::lemma_tag_codes_single_bit;
use crate::value::ValueView;
use crate::value::spec_value_bool;
use crate::value::spec_value_bytes;
use crate::value::spec_value_counter;
use crate::value::spec_value_f64_bits;
use crate::value::spec_value_int;
use crate::value::spec_value_str;
use crate::value::spec_value_tag;
use crate::value::spec_value_timestamp;
use crate::value::spec_value_uint;
use crate::value::spec_value_unknown;

verus! {

/// The tag invariant: an item's tag is `Void` exactly when the item has no
/// value; otherwise it is a non-zero code with exactly one bit set — a tag
/// never signifies two kinds, and `Default` never describes an item.
pub proof fn lemma_tag_invariant(i: ItemView)
    ensures
        spec_item_tag(i) == AMvalType::Void <==> i.value is None,
        spec_item_tag(i) != AMvalType::Default,
        spec_item_tag(i).spec_bits() != 0,
        (spec_item_tag(i).spec_bits() & (spec_item_tag(i).spec_bits() - 1) as u32) == 0,
{
    lemma_tag_codes_single_bit(spec_item_tag(i));
}

/// The round-trip law for every scalar constructor: extracting with the
/// matching extractor gives back exactly the constructed payload.
pub proof fn lemma_scalar_round_trips(
    b: bool,
    x: i64,
    u: u64,
    f: u64,
    c: i64,
    t: i64,
    bytes: Seq<u8>,
    s: Seq<char>,
    type_code: u8,
    unknown_bytes: Seq<u8>,
)
    ensures
        spec_value_bool(ValueView::Generic(GenView::Scalar(ScalarView::Boolean(b)))) == Ok::<
            bool,
            ItemError,
        >(b),
        spec_value_int(ValueView::Generic(GenView::Scalar(ScalarView::Int(x)))) == Ok::<
            i64,
            ItemError,
        >(x),
        spec_value_uint(ValueView::Generic(GenView::Scalar(ScalarView::Uint(u)))) == Ok::<
            u64,
            ItemError,
        >(u),
        spec_value_f64_bits(ValueView::Generic(GenView::Scalar(ScalarView::F64Bits(f)))) == Ok::<
            u64,
            ItemError,
        >(f),
        spec_value_counter(ValueView::Generic(GenView::Scalar(ScalarView::Counter(c)))) == Ok::<
            i64,
            ItemError,
        >(c),
        spec_value_timestamp(ValueView::Generic(GenView::Scalar(ScalarView::Timestamp(t))))
            == Ok::<i64, ItemError>(t),
        spec_value_bytes(ValueView::Generic(GenView::Scalar(ScalarView::Bytes(bytes)))) == Ok::<
            Seq<u8>,
            ItemError,
        >(bytes),
        spec_value_str(ValueView::Generic(GenView::Scalar(ScalarView::Str(s)))) == Ok::<
            Seq<char>,
            ItemError,
        >(s),
        spec_value_unknown(
            ValueView::Generic(
                GenView::Scalar(ScalarView::Unknown { type_code, bytes: unknown_bytes }),
            ),
        ) matches Ok(uv) && uv.bytes == unknown_bytes && uv.type_code == type_code,
{
}

/// Every value-level extractor succeeds exactly on its own tag, and a
/// failure carries the requested kind and the kind actually found.
pub proof fn lemma_value_extractors_exact(v: ValueView)
    ensures
        spec_value_bool(v) is Ok <==> spec_value_tag(v) == AMvalType::Bool,
        spec_value_int(v) is Ok <==> spec_value_tag(v) == AMvalType::Int,
        spec_value_uint(v) is Ok <==> spec_value_tag(v) == AMvalType::Uint,
        spec_value_f64_bits(v) is Ok <==> spec_value_tag(v) == AMvalType::F64,
        spec_value_counter(v) is Ok <==> spec_value_tag(v) == AMvalType::Counter,
        spec_value_timestamp(v) is Ok <==> spec_value_tag(v) == AMvalType::Timestamp,
        spec_value_bytes(v) is Ok <==> spec_value_tag(v) == AMvalType::Bytes,
        spec_value_str(v) is Ok <==> spec_value_tag(v) == AMvalType::Str,
        spec_value_unknown(v) is Ok <==> spec_value_tag(v) == AMvalType::Unknown,
        crate::value::spec_value_scalar(v) is Ok <==> crate::tag::spec_is_scalar_kind(
            spec_value_tag(v),
        ),
        spec_value_int(v) matches Err(e) ==> e == (ItemError::InvalidValueType {
            expected: AMvalType::Int.spec_bits(),
            unexpected: spec_value_tag(v).spec_bits(),
        }),
{
}

/// Every item-level extractor succeeds exactly on its own tag: on an item of
/// any other kind — the void item included — it returns the defined
/// mismatch error, never anything else.
pub proof fn lemma_item_extractors_exact(i: ItemView)
    ensures
        spec_item_bool(i) is Ok <==> spec_item_tag(i) == AMvalType::Bool,
        spec_item_int(i) is Ok <==> spec_item_tag(i) == AMvalType::Int,
        spec_item_uint(i) is Ok <==> spec_item_tag(i) == AMvalType::Uint,
        spec_item_f64_bits(i) is Ok <==> spec_item_tag(i) == AMvalType::F64,
        spec_item_counter(i) is Ok <==> spec_item_tag(i) == AMvalType::Counter,
        spec_item_timestamp(i) is Ok <==> spec_item_tag(i) == AMvalType::Timestamp,
        spec_item_bytes(i) is Ok <==> spec_item_tag(i) == AMvalType::Bytes,
        spec_item_str(i) is Ok <==> spec_item_tag(i) == AMvalType::Str,
        spec_item_unknown(i) is Ok <==> spec_item_tag(i) == AMvalType::Unknown,
        spec_item_change_hash(i) is Ok <==> spec_item_tag(i) == AMvalType::ChangeHash,
        spec_item_change(i) is Ok <==> spec_item_tag(i) == AMvalType::Change,
        spec_item_doc(i) is Ok <==> spec_item_tag(i) == AMvalType::Doc,
        spec_item_sync_have(i) is Ok <==> spec_item_tag(i) == AMvalType::SyncHave,
        spec_item_sync_message(i) is Ok <==> spec_item_tag(i) == AMvalType::SyncMessage,
        spec_item_sync_state(i) is Ok <==> spec_item_tag(i) == AMvalType::SyncState,
        spec_item_int(i) matches Err(e) ==> e == spec_item_mismatch(
            AMvalType::Int.spec_bits(),
            i,
        ),
        spec_item_int(i) matches Ok(x) ==> i.value == Option::Some(
            ValueView::Generic(GenView::Scalar(ScalarView::Int(x))),
        ),
{
}

/// The compound extraction succeeds exactly when both the object identifier
/// and a generic value are present; a missing object identifier outranks
/// every other failure.
pub proof fn lemma_compound_extraction(i: ItemView)
    ensures
        spec_item_value_obj_id(i) is Ok <==> (i.obj_id is Some && (i.value matches Option::Some(
            ValueView::Generic(_),
        ))),
        i.obj_id is None ==> spec_item_value_obj_id(i) == Err::<
            (GenView, crate::item::ObjIdView),
            ItemError,
        >(ItemError::InvalidObjId),
{
}

/// The content of a handle after `n` alias registrations.
pub open spec fn spec_dup_n(h: HandleView, n: nat) -> HandleView
    decreases n,
{
    if n == 0 {
        h
    } else {
        spec_duplicate(spec_dup_n(h, (n - 1) as nat))
    }
}

/// The reference-count accounting law: duplicating `n` times raises the
/// count by exactly `n` and never touches the item.
pub proof fn lemma_refcount_accounting(h: HandleView, n: nat)
    requires
        h.count + n <= usize::MAX,
    ensures
        spec_dup_n(h, n).item == h.item,
        spec_dup_n(h, n).count == h.count + n,
    decreases n,
{
    if n > 0 {
        lemma_refcount_accounting(h, (n - 1) as nat);
    }
}

/// Releasing undoes duplicating: one release after one duplication restores
/// the handle's content exactly, so releasing every duplicate returns the
/// count to where it began.
pub proof fn lemma_release_undoes_duplicate(h: HandleView)
    requires
        1 <= h.count < usize::MAX,
    ensures
        spec_release(spec_duplicate(h)) == Option::Some(h),
{
}

/// Handle equality is the structural equality of the wrapped items: two
/// handles on structurally equal items compare equal however many aliases
/// either has, and handles on differing items never compare equal.
pub proof fn lemma_handle_equality(a: AMitem, b: AMitem)
    ensures
        vstd::std_specs::cmp::PartialEqSpec::eq_spec(&a, &b) <==> a@.item == b@.item,
{
}

/// A document value compares equal only to the same document instance: two
/// document values are equal exactly when they carry the same identity
/// token, and a document value never equals a value of another kind.
pub proof fn lemma_doc_identity(v1: ValueView, v2: ValueView)
    ensures
        v1 is Doc ==> (v1 == v2 <==> (v2 matches ValueView::Doc(t) && t == v1->Doc_0)),
{
}

} // verus!
