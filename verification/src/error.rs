//! The error kinds of the value-extraction layer.
//!
//! Every error here is recoverable: internal callers inspect it, and the
//! boundary functions convert it into a type-appropriate sentinel value
//! instead of propagating it further.

use vstd::prelude::*;

verus! {

/// Why a fallible conversion or a gated mutation failed.
///
/// `expected` and `unexpected` are tag codes (see
/// [`crate::tag::AMvalType::spec_bits`]): `expected` is a mask of the codes
/// the conversion accepts, `unexpected` the code of the kind actually found.
#[derive(Clone, Copy, PartialEq, Eq, Structural, Debug)]
pub enum ItemError {
    /// A downcast was attempted against a value whose active kind differs
    /// from the requested type.
    InvalidValueType { expected: u32, unexpected: u32 },
    /// A compound extraction required an owning-object identifier that was
    /// absent.
    InvalidObjId,
    /// A mutation was attempted on a shared item handle with more than one
    /// live alias.
    ExclusiveAccessUnavailable,
    /// A change hash was built from a byte sequence of the wrong length.
    InvalidChangeHashSize,
}

} // verus!
