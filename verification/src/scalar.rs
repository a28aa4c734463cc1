//! The generic value model: scalars and object references produced by
//! document queries.
//!
//! Engine-native scalars are carried here as plain data: bytes as byte
//! vectors, strings as owned strings, counters and timestamps as 64-bit
//! integers, and 64-bit floats as their raw bit pattern (the layer itself
//! never computes with the float).  An object-typed result is carried as the
//! kind of container it refers to.

use vstd::prelude::*;

use crate::tag::AMvalType;
use crate::util::bytes_clone;
use crate::util::bytes_eq;

verus! {

/// The kind of composite object a generic value refers to.
#[derive(Clone, Copy, PartialEq, Eq, Structural, Debug)]
pub enum ObjKind {
    /// A key-value map.
    MapObj,
    /// A table.
    Table,
    /// A list.
    List,
    /// A text sequence.
    Text,
}

/// A value (typically for a `set` operation) whose type is unknown.
pub struct AMunknownValue {
    /// The value's raw bytes.
    pub bytes: Vec<u8>,
    /// The value's encoded type identifier.
    pub type_code: u8,
}

/// The mathematical content of an [`AMunknownValue`].
pub struct UnknownView {
    pub bytes: Seq<u8>,
    pub type_code: u8,
}

impl View for AMunknownValue {
    type V = UnknownView;

    open spec fn view(&self) -> UnknownView {
        UnknownView { bytes: self.bytes@, type_code: self.type_code }
    }
}

impl vstd::std_specs::cmp::PartialEqSpecImpl for AMunknownValue {
    open spec fn obeys_eq_spec() -> bool {
        true
    }

    open spec fn eq_spec(&self, other: &Self) -> bool {
        self@ == other@
    }
}

impl PartialEq for AMunknownValue {
    fn eq(&self, other: &Self) -> (r: bool) {
        self.type_code == other.type_code && bytes_eq(&self.bytes, &other.bytes)
    }
}

impl Eq for AMunknownValue {

}

impl Default for AMunknownValue {
    /// The all-zero unknown value: no bytes, type code zero.
    fn default() -> (r: Self)
        ensures
            r@.bytes == Seq::<u8>::empty(),
            r@.type_code == 0,
    {
        AMunknownValue { bytes: Vec::new(), type_code: 0 }
    }
}

/// A scalar value of the document engine, held as plain data.
pub enum Scalar {
    /// A boolean.
    Boolean(bool),
    /// An array of bytes.
    Bytes(Vec<u8>),
    /// A CRDT counter's current value.
    Counter(i64),
    /// A 64-bit float, carried as its raw bit pattern.
    F64Bits(u64),
    /// A 64-bit signed integer.
    Int(i64),
    /// A null value.
    Null,
    /// A UTF-8 string.
    Str(String),
    /// A *nix timestamp in milliseconds.
    Timestamp(i64),
    /// A 64-bit unsigned integer.
    Uint(u64),
    /// A value from an unknown future kind: raw bytes plus a type code.
    Unknown { type_code: u8, bytes: Vec<u8> },
}

/// The mathematical content of a [`Scalar`].
pub enum ScalarView {
    Boolean(bool),
    Bytes(Seq<u8>),
    Counter(i64),
    F64Bits(u64),
    Int(i64),
    Null,
    Str(Seq<char>),
    Timestamp(i64),
    Uint(u64),
    Unknown { type_code: u8, bytes: Seq<u8> },
}

impl View for Scalar {
    type V = ScalarView;

    open spec fn view(&self) -> ScalarView {
        match self {
            Scalar::Boolean(b) => ScalarView::Boolean(*b),
            Scalar::Bytes(v) => ScalarView::Bytes(v@),
            Scalar::Counter(c) => ScalarView::Counter(*c),
            Scalar::F64Bits(f) => ScalarView::F64Bits(*f),
            Scalar::Int(i) => ScalarView::Int(*i),
            Scalar::Null => ScalarView::Null,
            Scalar::Str(s) => ScalarView::Str(s@),
            Scalar::Timestamp(t) => ScalarView::Timestamp(*t),
            Scalar::Uint(u) => ScalarView::Uint(*u),
            Scalar::Unknown { type_code, bytes } => ScalarView::Unknown {
                type_code: *type_code,
                bytes: bytes@,
            },
        }
    }
}

/// The type tag of a scalar.
pub open spec fn spec_scalar_tag(s: ScalarView) -> AMvalType {
    match s {
        ScalarView::Boolean(_) => AMvalType::Bool,
        ScalarView::Bytes(_) => AMvalType::Bytes,
        ScalarView::Counter(_) => AMvalType::Counter,
        ScalarView::F64Bits(_) => AMvalType::F64,
        ScalarView::Int(_) => AMvalType::Int,
        ScalarView::Null => AMvalType::Null,
        ScalarView::Str(_) => AMvalType::Str,
        ScalarView::Timestamp(_) => AMvalType::Timestamp,
        ScalarView::Uint(_) => AMvalType::Uint,
        ScalarView::Unknown { .. } => AMvalType::Unknown,
    }
}

impl Scalar {
    /// The type tag of this scalar.
    pub fn tag(&self) -> (r: AMvalType)
        ensures
            r == spec_scalar_tag(self@),
    {
        match self {
            Scalar::Boolean(_) => AMvalType::Bool,
            Scalar::Bytes(_) => AMvalType::Bytes,
            Scalar::Counter(_) => AMvalType::Counter,
            Scalar::F64Bits(_) => AMvalType::F64,
            Scalar::Int(_) => AMvalType::Int,
            Scalar::Null => AMvalType::Null,
            Scalar::Str(_) => AMvalType::Str,
            Scalar::Timestamp(_) => AMvalType::Timestamp,
            Scalar::Uint(_) => AMvalType::Uint,
            Scalar::Unknown { .. } => AMvalType::Unknown,
        }
    }

    /// A fresh scalar with the same content.
    pub fn duplicated(&self) -> (r: Self)
        ensures
            r@ == self@,
    {
        match self {
            Scalar::Boolean(b) => Scalar::Boolean(*b),
            Scalar::Bytes(v) => Scalar::Bytes(bytes_clone(v)),
            Scalar::Counter(c) => Scalar::Counter(*c),
            Scalar::F64Bits(f) => Scalar::F64Bits(*f),
            Scalar::Int(i) => Scalar::Int(*i),
            Scalar::Null => Scalar::Null,
            Scalar::Str(s) => Scalar::Str(s.clone()),
            Scalar::Timestamp(t) => Scalar::Timestamp(*t),
            Scalar::Uint(u) => Scalar::Uint(*u),
            Scalar::Unknown { type_code, bytes } => Scalar::Unknown {
                type_code: *type_code,
                bytes: bytes_clone(bytes),
            },
        }
    }
}

impl vstd::std_specs::cmp::PartialEqSpecImpl for Scalar {
    open spec fn obeys_eq_spec() -> bool {
        true
    }

    open spec fn eq_spec(&self, other: &Self) -> bool {
        self@ == other@
    }
}

impl PartialEq for Scalar {
    fn eq(&self, other: &Self) -> (r: bool) {
        match (self, other) {
            (Scalar::Boolean(a), Scalar::Boolean(b)) => a == b,
            (Scalar::Bytes(a), Scalar::Bytes(b)) => bytes_eq(a, b),
            (Scalar::Counter(a), Scalar::Counter(b)) => a == b,
            (Scalar::F64Bits(a), Scalar::F64Bits(b)) => a == b,
            (Scalar::Int(a), Scalar::Int(b)) => a == b,
            (Scalar::Null, Scalar::Null) => true,
            (Scalar::Str(a), Scalar::Str(b)) => *a == *b,
            (Scalar::Timestamp(a), Scalar::Timestamp(b)) => a == b,
            (Scalar::Uint(a), Scalar::Uint(b)) => a == b,
            (
                Scalar::Unknown { type_code: c1, bytes: b1 },
                Scalar::Unknown { type_code: c2, bytes: b2 },
            ) => *c1 == *c2 && bytes_eq(b1, b2),
            _ => false,
        }
    }
}

/// A generic value from a document query: a composite object reference or a
/// scalar.
pub enum GenValue {
    /// A reference to a composite object of the given kind.
    Object(ObjKind),
    /// A non-composite value.
    Scalar(Scalar),
}

/// The mathematical content of a [`GenValue`].
pub enum GenView {
    Object(ObjKind),
    Scalar(ScalarView),
}

impl View for GenValue {
    type V = GenView;

    open spec fn view(&self) -> GenView {
        match self {
            GenValue::Object(k) => GenView::Object(*k),
            GenValue::Scalar(s) => GenView::Scalar(s@),
        }
    }
}

/// The type tag of a generic value.
pub open spec fn spec_gen_tag(g: GenView) -> AMvalType {
    match g {
        GenView::Object(_) => AMvalType::ObjType,
        GenView::Scalar(s) => spec_scalar_tag(s),
    }
}

impl GenValue {
    /// The type tag of this generic value.
    pub fn tag(&self) -> (r: AMvalType)
        ensures
            r == spec_gen_tag(self@),
    {
        match self {
            GenValue::Object(_) => AMvalType::ObjType,
            GenValue::Scalar(s) => s.tag(),
        }
    }

    /// A fresh generic value with the same content.
    pub fn duplicated(&self) -> (r: Self)
        ensures
            r@ == self@,
    {
        match self {
            GenValue::Object(k) => GenValue::Object(*k),
            GenValue::Scalar(s) => GenValue::Scalar(s.duplicated()),
        }
    }
}

impl vstd::std_specs::cmp::PartialEqSpecImpl for GenValue {
    open spec fn obeys_eq_spec() -> bool {
        true
    }

    open spec fn eq_spec(&self, other: &Self) -> bool {
        self@ == other@
    }
}

impl PartialEq for GenValue {
    fn eq(&self, other: &Self) -> (r: bool) {
        match (self, other) {
            (GenValue::Object(a), GenValue::Object(b)) => a == b,
            (GenValue::Scalar(a), GenValue::Scalar(b)) => a == b,
            _ => false,
        }
    }
}

} // verus!
