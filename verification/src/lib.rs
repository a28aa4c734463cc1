//! Tagged values, result items, and shared item handles for a document
//! engine's foreign-call boundary.
//!
//! A document engine produces heterogeneous results: actor identifiers,
//! changes, change hashes, documents, synchronization artifacts, and generic
//! scalar or object values.  This crate wraps each such result in a tagged
//! [`value::TaggedValue`], groups it with an optional locator and owning-object
//! identifier in an [`item::Item`], and hands it out as a reference-counted
//! [`handle::AMitem`].  Callers discover the runtime type through a stable
//! bit-flag code ([`tag::AMvalType`]) and extract concrete payloads through
//! fallible conversions; the boundary functions in [`boundary`] convert every
//! failure into a fixed, type-appropriate sentinel value.

#[allow(non_snake_case)]
pub mod boundary;
pub mod engine;
pub mod error;
pub mod handle;
pub mod hex;
pub mod item;
pub mod laws;
pub mod scalar;
pub mod tag;
pub mod util;
pub mod value;
