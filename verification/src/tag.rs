//! Stable numeric codes for the runtime type of an item's value and for the
//! kind of an item's locator.
//!
//! Each concrete value kind is assigned a distinct power of two, so a single
//! tag can be tested against a multi-type mask (`tag & mask != 0`) instead of
//! an equality chain.  `Default` is zero (not a type signifier) and `Void` is
//! the lowest bit; the codes are a binary-compatibility contract: new kinds
//! take a fresh power of two and existing codes are never renumbered.

use vstd::prelude::*;

verus! {

/// The type of an item's value.
#[derive(Clone, Copy, PartialEq, Eq, Structural, Debug)]
pub enum AMvalType {
    /// An actor identifier value.
    ActorId,
    /// A boolean value.
    Bool,
    /// An array-of-bytes value.
    Bytes,
    /// A change value.
    Change,
    /// A change hash value.
    ChangeHash,
    /// A CRDT counter value.
    Counter,
    /// The default tag, not a type signifier.
    Default,
    /// A document value.
    Doc,
    /// A 64-bit float value, carried as its bit pattern.
    F64,
    /// A 64-bit signed integer value.
    Int,
    /// A null value.
    Null,
    /// An object type value.
    ObjType,
    /// A UTF-8 string value.
    Str,
    /// A synchronization have value.
    SyncHave,
    /// A synchronization message value.
    SyncMessage,
    /// A synchronization state value.
    SyncState,
    /// A *nix timestamp (milliseconds) value.
    Timestamp,
    /// A 64-bit unsigned integer value.
    Uint,
    /// An unknown type of value.
    Unknown,
    /// A void.
    Void,
}

impl AMvalType {
    /// The stable numeric code of this tag: zero for `Default`, a distinct
    /// power of two for every other variant.
    pub open spec fn spec_bits(self) -> u32 {
        match self {
            AMvalType::Default => 0,
            AMvalType::Void => 1,
            AMvalType::ActorId => 2,
            AMvalType::Bool => 4,
            AMvalType::Bytes => 8,
            AMvalType::Change => 16,
            AMvalType::ChangeHash => 32,
            AMvalType::Counter => 64,
            AMvalType::Doc => 128,
            AMvalType::F64 => 256,
            AMvalType::Int => 512,
            AMvalType::Null => 1024,
            AMvalType::ObjType => 2048,
            AMvalType::Str => 4096,
            AMvalType::SyncHave => 8192,
            AMvalType::SyncMessage => 16384,
            AMvalType::SyncState => 32768,
            AMvalType::Timestamp => 65536,
            AMvalType::Uint => 131072,
            AMvalType::Unknown => 262144,
        }
    }

    /// Executable form of [`Self::spec_bits`].
    pub fn bits(&self) -> (r: u32)
        ensures
            r == self.spec_bits(),
    {
        match self {
            AMvalType::Default => 0,
            AMvalType::Void => 1,
            AMvalType::ActorId => 2,
            AMvalType::Bool => 4,
            AMvalType::Bytes => 8,
            AMvalType::Change => 16,
            AMvalType::ChangeHash => 32,
            AMvalType::Counter => 64,
            AMvalType::Doc => 128,
            AMvalType::F64 => 256,
            AMvalType::Int => 512,
            AMvalType::Null => 1024,
            AMvalType::ObjType => 2048,
            AMvalType::Str => 4096,
            AMvalType::SyncHave => 8192,
            AMvalType::SyncMessage => 16384,
            AMvalType::SyncState => 32768,
            AMvalType::Timestamp => 65536,
            AMvalType::Uint => 131072,
            AMvalType::Unknown => 262144,
        }
    }

    /// Whether this tag's code has the given mask's bit set.  Callers
    /// validating heterogeneous collections test one tag against a union of
    /// acceptable codes in a single operation.
    pub fn in_mask(&self, mask: u32) -> (r: bool)
        ensures
            r == (self.spec_bits() & mask != 0),
    {
        self.bits() & mask != 0
    }
}

impl Default for AMvalType {
    /// The default tag carries no type information.
    fn default() -> (r: Self)
        ensures
            r == AMvalType::Default,
    {
        AMvalType::Default
    }
}

/// Every tag other than `Default` has exactly one bit set in its code, so a
/// mask can never capture two distinct kinds with one bit, and `Default`
/// alone is zero.
pub proof fn lemma_tag_codes_single_bit(t: AMvalType)
    ensures
        t != AMvalType::Default ==> t.spec_bits() != 0,
        t != AMvalType::Default ==> (t.spec_bits() & (t.spec_bits() - 1) as u32) == 0,
        t == AMvalType::Default ==> t.spec_bits() == 0,
{
    assert((0u32 & 0u32) == 0 && (1u32 & 0u32) == 0 && (2u32 & 1u32) == 0 && (4u32 & 3u32) == 0
        && (8u32 & 7u32) == 0 && (16u32 & 15u32) == 0 && (32u32 & 31u32) == 0 && (64u32 & 63u32)
        == 0 && (128u32 & 127u32) == 0 && (256u32 & 255u32) == 0 && (512u32 & 511u32) == 0
        && (1024u32 & 1023u32) == 0 && (2048u32 & 2047u32) == 0 && (4096u32 & 4095u32) == 0
        && (8192u32 & 8191u32) == 0 && (16384u32 & 16383u32) == 0 && (32768u32 & 32767u32) == 0
        && (65536u32 & 65535u32) == 0 && (131072u32 & 131071u32) == 0 && (262144u32 & 262143u32)
        == 0) by (bit_vector);
}

/// Distinct tags have distinct codes: the numbering is injective.
pub proof fn lemma_tag_codes_distinct(t1: AMvalType, t2: AMvalType)
    ensures
        t1 != t2 ==> t1.spec_bits() != t2.spec_bits(),
{
}

/// The union of every scalar kind's code: boolean, bytes, counter, float,
/// signed integer, null, string, timestamp, unsigned integer, and unknown.
pub const SCALAR_VALUE_MASK: u32 = 4 | 8 | 64 | 256 | 512 | 1024 | 4096 | 65536 | 131072 | 262144;

/// The union of every generic-value kind's code: the scalar kinds plus the
/// object-type kind.
pub const GENERIC_VALUE_MASK: u32 = SCALAR_VALUE_MASK | 2048;

/// Whether a tag names one of the scalar kinds.
pub open spec fn spec_is_scalar_kind(t: AMvalType) -> bool {
    match t {
        AMvalType::Bool => true,
        AMvalType::Bytes => true,
        AMvalType::Counter => true,
        AMvalType::F64 => true,
        AMvalType::Int => true,
        AMvalType::Null => true,
        AMvalType::Str => true,
        AMvalType::Timestamp => true,
        AMvalType::Uint => true,
        AMvalType::Unknown => true,
        _ => false,
    }
}

/// The mask law: testing a tag's code against a union of codes selects
/// exactly the kinds in the union — the scalar mask captures the scalar
/// kinds and nothing else, and the generic-value mask additionally captures
/// the object-type kind.
pub proof fn lemma_masks_select_their_kinds(t: AMvalType)
    ensures
        (t.spec_bits() & SCALAR_VALUE_MASK != 0) <==> spec_is_scalar_kind(t),
        (t.spec_bits() & GENERIC_VALUE_MASK != 0) <==> (spec_is_scalar_kind(t) || t
            == AMvalType::ObjType),
{
    assert((4u32 | 8 | 64 | 256 | 512 | 1024 | 4096 | 65536 | 131072 | 262144) == 464716u32
        && (464716u32 | 2048) == 466764u32 && (0u32 & 464716) == 0 && (1u32 & 464716) == 0
        && (2u32 & 464716) == 0 && (4u32 & 464716) != 0 && (8u32 & 464716) != 0 && (16u32
        & 464716) == 0 && (32u32 & 464716) == 0 && (64u32 & 464716) != 0 && (128u32 & 464716)
        == 0 && (256u32 & 464716) != 0 && (512u32 & 464716) != 0 && (1024u32 & 464716) != 0
        && (2048u32 & 464716) == 0 && (4096u32 & 464716) != 0 && (8192u32 & 464716) == 0
        && (16384u32 & 464716) == 0 && (32768u32 & 464716) == 0 && (65536u32 & 464716) != 0
        && (131072u32 & 464716) != 0 && (262144u32 & 464716) != 0) by (bit_vector);
    assert((0u32 & 466764) == 0 && (1u32 & 466764) == 0 && (2u32 & 466764) == 0 && (4u32 & 466764)
        != 0 && (8u32 & 466764) != 0 && (16u32 & 466764) == 0 && (32u32 & 466764) == 0 && (64u32
        & 466764) != 0 && (128u32 & 466764) == 0 && (256u32 & 466764) != 0 && (512u32 & 466764)
        != 0 && (1024u32 & 466764) != 0 && (2048u32 & 466764) != 0 && (4096u32 & 466764) != 0
        && (8192u32 & 466764) == 0 && (16384u32 & 466764) == 0 && (32768u32 & 466764) == 0
        && (65536u32 & 466764) != 0 && (131072u32 & 466764) != 0 && (262144u32 & 466764) != 0)
        by (bit_vector);
}

/// The type of an item's locator: a key, a position, or neither.
#[derive(Clone, Copy, PartialEq, Eq, Structural, Debug)]
pub enum AMidxType {
    /// The default tag: the item carries no locator.
    Default,
    /// The item is located by a string key.
    Key,
    /// The item is located by a numeric position.
    Pos,
}

impl Default for AMidxType {
    /// The default locator tag: no locator.
    fn default() -> (r: Self)
        ensures
            r == AMidxType::Default,
    {
        AMidxType::Default
    }
}

} // verus!
