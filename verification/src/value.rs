//! The tagged value: an owned union holding exactly one engine result.
//!
//! Engine-native payloads are modelled as plain data the moment they enter
//! this layer: an actor identifier by its bytes, a change by its binary
//! encoding and its hash, a change hash by its 32 bytes, synchronization
//! artifacts by their encodings, and a document by an identity token (two
//! documents are the same value only if they are the same instance, so the
//! token, not the content, carries equality).  Variants whose foreign
//! representation is non-trivial to rebuild (actor identifier, change) carry
//! an explicit two-state projection slot: initially empty, populated the
//! first time the foreign-friendly view is requested, memoized afterwards.

use vstd::prelude::*;

use crate::engine;
use crate::error::ItemError;
use crate::hex::hex_of_bytes;
use crate::hex::spec_hex;
use crate::scalar::AMunknownValue;
use crate::scalar::GenValue;
use crate::scalar::GenView;
use crate::scalar::Scalar;
use crate::scalar::ScalarView;
use crate::scalar::UnknownView;
use crate::scalar::spec_gen_tag;
use crate::tag::AMvalType;
use crate::util::byte_seqs_clone;
use crate::util::byte_seqs_eq;
use crate::util::bytes_clone;
use crate::util::bytes_eq;

verus! {

/// An owned union holding exactly one engine result.
pub enum TaggedValue {
    /// An engine actor identifier: its bytes, and the memoized lowercase hex
    /// projection built on first request.
    ActorId { bytes: Vec<u8>, hex_memo: Option<String> },
    /// One change record: its binary encoding, its 32-byte hash, and the
    /// memoized foreign projection (the hash bytes) built on first request.
    Change { bytes: Vec<u8>, hash: Vec<u8>, span_memo: Option<Vec<u8>> },
    /// A 32-byte change hash.
    ChangeHash(Vec<u8>),
    /// A full document handle: the engine document itself, exclusively
    /// owned, plus the identity token that stands for this instance.
    Doc { doc: automerge::AutoCommit, token: u64 },
    /// One synchronization "have" record: the heads at the last successful
    /// sync, each a 32-byte hash.
    SyncHave(Vec<Vec<u8>>),
    /// One synchronization protocol message, as its binary encoding.
    SyncMessage(Vec<u8>),
    /// Mutable synchronization session state, as its binary encoding.
    SyncState(Vec<u8>),
    /// A generic scalar or object-reference value from a document query.
    Generic(GenValue),
}

/// The mathematical content of a [`TaggedValue`].  Projection slots are not part
/// of the content: equality ignores them.
pub enum ValueView {
    ActorId(Seq<u8>),
    Change { bytes: Seq<u8>, hash: Seq<u8> },
    ChangeHash(Seq<u8>),
    Doc(u64),
    SyncHave(Seq<Seq<u8>>),
    SyncMessage(Seq<u8>),
    SyncState(Seq<u8>),
    Generic(GenView),
}

impl View for TaggedValue {
    type V = ValueView;

    open spec fn view(&self) -> ValueView {
        match self {
            TaggedValue::ActorId { bytes, .. } => ValueView::ActorId(bytes@),
            TaggedValue::Change { bytes, hash, .. } => ValueView::Change {
                bytes: bytes@,
                hash: hash@,
            },
            TaggedValue::ChangeHash(h) => ValueView::ChangeHash(h@),
            TaggedValue::Doc { token, .. } => ValueView::Doc(*token),
            TaggedValue::SyncHave(v) => ValueView::SyncHave(v.deep_view()),
            TaggedValue::SyncMessage(b) => ValueView::SyncMessage(b@),
            TaggedValue::SyncState(b) => ValueView::SyncState(b@),
            TaggedValue::Generic(g) => ValueView::Generic(g@),
        }
    }
}

/// The type tag of a tagged value.
pub open spec fn spec_value_tag(v: ValueView) -> AMvalType {
    match v {
        ValueView::ActorId(_) => AMvalType::ActorId,
        ValueView::Change { .. } => AMvalType::Change,
        ValueView::ChangeHash(_) => AMvalType::ChangeHash,
        ValueView::Doc(_) => AMvalType::Doc,
        ValueView::SyncHave(_) => AMvalType::SyncHave,
        ValueView::SyncMessage(_) => AMvalType::SyncMessage,
        ValueView::SyncState(_) => AMvalType::SyncState,
        ValueView::Generic(g) => spec_gen_tag(g),
    }
}

/// The error for a downcast that found the kind `v` where only the kinds in
/// the mask `expected` are accepted.
pub open spec fn spec_mismatch(expected: u32, v: ValueView) -> ItemError {
    ItemError::InvalidValueType { expected, unexpected: spec_value_tag(v).spec_bits() }
}

impl TaggedValue {
    /// Well-formed content: hashes are 32 bytes, and a populated projection
    /// slot holds exactly the projection it memoizes.
    pub open spec fn wf(self) -> bool {
        match self {
            TaggedValue::ActorId { bytes, hex_memo } => match hex_memo {
                Option::Some(h) => h@ == spec_hex(bytes@),
                Option::None => true,
            },
            TaggedValue::Change { bytes, hash, span_memo } => hash@.len() == 32 && match span_memo {
                Option::Some(s) => s@ == hash@,
                Option::None => true,
            },
            TaggedValue::ChangeHash(h) => h@.len() == 32,
            TaggedValue::SyncHave(v) => forall|i: int| 0 <= i < v@.len() ==> #[trigger] v@[i]@.len()
                == 32,
            _ => true,
        }
    }

    /// Whether the lazily-built foreign projection has not been requested
    /// yet.  True of every freshly constructed value.
    pub open spec fn projection_empty(self) -> bool {
        match self {
            TaggedValue::ActorId { hex_memo, .. } => hex_memo is None,
            TaggedValue::Change { span_memo, .. } => span_memo is None,
            _ => true,
        }
    }

    /// The type tag of this value.
    pub fn tag(&self) -> (r: AMvalType)
        ensures
            r == spec_value_tag(self@),
    {
        match self {
            TaggedValue::ActorId { .. } => AMvalType::ActorId,
            TaggedValue::Change { .. } => AMvalType::Change,
            TaggedValue::ChangeHash(_) => AMvalType::ChangeHash,
            TaggedValue::Doc { .. } => AMvalType::Doc,
            TaggedValue::SyncHave(_) => AMvalType::SyncHave,
            TaggedValue::SyncMessage(_) => AMvalType::SyncMessage,
            TaggedValue::SyncState(_) => AMvalType::SyncState,
            TaggedValue::Generic(g) => g.tag(),
        }
    }

    /// Wraps an engine actor identifier, taking ownership.  The hex
    /// projection slot starts empty.
    pub fn from_actor(actor: automerge::ActorId) -> (r: TaggedValue)
        ensures
            r@ is ActorId,
            r.wf(),
            r.projection_empty(),
    {
        TaggedValue::ActorId { bytes: engine::actor_bytes(&actor), hex_memo: None }
    }

    /// Wraps an engine change record, taking ownership.  The projection slot
    /// starts empty.
    pub fn from_change(change: automerge::Change) -> (r: TaggedValue)
        ensures
            r@ is Change,
            r.wf(),
            r.projection_empty(),
    {
        let bytes = engine::change_raw_bytes(&change);
        let hash = engine::change_hash(&change);
        TaggedValue::Change { bytes, hash, span_memo: None }
    }

    /// Wraps an engine change hash, taking ownership.
    pub fn from_change_hash(hash: automerge::ChangeHash) -> (r: TaggedValue)
        ensures
            r@ is ChangeHash,
            r.wf(),
            r.projection_empty(),
    {
        TaggedValue::ChangeHash(engine::change_hash_bytes(&hash))
    }

    /// Builds a change-hash value from plain bytes: exactly 32 bytes are
    /// accepted, anything else is rejected.
    pub fn from_hash_bytes(bytes: Vec<u8>) -> (r: Result<TaggedValue, ItemError>)
        ensures
            bytes@.len() == 32 ==> r == Ok::<TaggedValue, ItemError>(TaggedValue::ChangeHash(bytes)),
            bytes@.len() != 32 ==> r == Err::<TaggedValue, ItemError>(ItemError::InvalidChangeHashSize),
    {
        if bytes.len() == 32 {
            Ok(TaggedValue::ChangeHash(bytes))
        } else {
            Err(ItemError::InvalidChangeHashSize)
        }
    }

    /// Wraps an engine document, taking exclusive ownership.  `token` stands
    /// for this document instance: equality of document values is identity,
    /// so the caller supplies a token that no other live document value
    /// carries.
    pub fn from_doc(doc: automerge::AutoCommit, token: u64) -> (r: TaggedValue)
        ensures
            r@ == ValueView::Doc(token),
            r.wf(),
            r.projection_empty(),
    {
        TaggedValue::Doc { doc, token }
    }

    /// Wraps an engine synchronization "have" record, taking ownership.
    pub fn from_have(have: automerge::sync::Have) -> (r: TaggedValue)
        ensures
            r@ is SyncHave,
            r.wf(),
            r.projection_empty(),
    {
        let heads = engine::have_last_sync(have);
        let mut last_sync: Vec<Vec<u8>> = Vec::new();
        let mut i: usize = 0;
        while i < heads.len()
            invariant
                i <= heads@.len(),
                last_sync@.len() == i,
                forall|j: int| 0 <= j < i ==> #[trigger] last_sync@[j]@.len() == 32,
            decreases heads@.len() - i,
        {
            last_sync.push(engine::change_hash_bytes(&heads[i]));
            i = i + 1;
        }
        TaggedValue::SyncHave(last_sync)
    }

    /// Wraps an engine synchronization message, taking ownership.
    pub fn from_message(message: automerge::sync::Message) -> (r: TaggedValue)
        ensures
            r@ is SyncMessage,
            r.wf(),
            r.projection_empty(),
    {
        TaggedValue::SyncMessage(engine::message_encode(message))
    }

    /// Wraps engine synchronization session state, taking ownership.
    pub fn from_state(state: automerge::sync::State) -> (r: TaggedValue)
        ensures
            r@ is SyncState,
            r.wf(),
            r.projection_empty(),
    {
        TaggedValue::SyncState(engine::state_encode(&state))
    }

    /// Wraps an engine query result, taking ownership.
    pub fn from_engine_value(value: automerge::Value<'static>) -> (r: TaggedValue)
        ensures
            r@ is Generic,
            r.wf(),
            r.projection_empty(),
    {
        match engine::split_value(value) {
            Ok(t) => TaggedValue::Generic(GenValue::Object(engine::obj_kind_model(&t))),
            Err(s) => TaggedValue::Generic(GenValue::Scalar(engine::scalar_model(s))),
        }
    }

    /// Wraps a generic value already in model form.
    pub fn from_gen(value: GenValue) -> (r: TaggedValue)
        ensures
            r@ == ValueView::Generic(value@),
            r.wf(),
            r.projection_empty(),
    {
        TaggedValue::Generic(value)
    }

    /// Wraps an owned string as a generic string scalar.
    pub fn from_string(string: String) -> (r: TaggedValue)
        ensures
            r@ == ValueView::Generic(GenView::Scalar(crate::scalar::ScalarView::Str(string@))),
            r.wf(),
            r.projection_empty(),
    {
        TaggedValue::Generic(GenValue::Scalar(crate::scalar::Scalar::Str(string)))
    }
}

/// What extracting an array of bytes from a tagged value returns.
pub open spec fn spec_value_bytes(v: ValueView) -> Result<Seq<u8>, ItemError> {
    match v {
        ValueView::Generic(GenView::Scalar(ScalarView::Bytes(b))) => Ok(b),
        _ => Err(spec_mismatch(AMvalType::Bytes.spec_bits(), v)),
    }
}

/// What extracting a change hash from a tagged value returns.
pub open spec fn spec_value_change_hash(v: ValueView) -> Result<Seq<u8>, ItemError> {
    match v {
        ValueView::ChangeHash(h) => Ok(h),
        _ => Err(spec_mismatch(AMvalType::ChangeHash.spec_bits(), v)),
    }
}

/// What extracting a counter from a tagged value returns.
pub open spec fn spec_value_counter(v: ValueView) -> Result<i64, ItemError> {
    match v {
        ValueView::Generic(GenView::Scalar(ScalarView::Counter(c))) => Ok(c),
        _ => Err(spec_mismatch(AMvalType::Counter.spec_bits(), v)),
    }
}

/// What extracting a signed integer from a tagged value returns.
pub open spec fn spec_value_int(v: ValueView) -> Result<i64, ItemError> {
    match v {
        ValueView::Generic(GenView::Scalar(ScalarView::Int(x))) => Ok(x),
        _ => Err(spec_mismatch(AMvalType::Int.spec_bits(), v)),
    }
}

/// What extracting a string from a tagged value returns.
pub open spec fn spec_value_str(v: ValueView) -> Result<Seq<char>, ItemError> {
    match v {
        ValueView::Generic(GenView::Scalar(ScalarView::Str(s))) => Ok(s),
        _ => Err(spec_mismatch(AMvalType::Str.spec_bits(), v)),
    }
}

/// What extracting a timestamp from a tagged value returns.
pub open spec fn spec_value_timestamp(v: ValueView) -> Result<i64, ItemError> {
    match v {
        ValueView::Generic(GenView::Scalar(ScalarView::Timestamp(t))) => Ok(t),
        _ => Err(spec_mismatch(AMvalType::Timestamp.spec_bits(), v)),
    }
}

/// What extracting a boolean from a tagged value returns.
pub open spec fn spec_value_bool(v: ValueView) -> Result<bool, ItemError> {
    match v {
        ValueView::Generic(GenView::Scalar(ScalarView::Boolean(b))) => Ok(b),
        _ => Err(spec_mismatch(AMvalType::Bool.spec_bits(), v)),
    }
}

/// What extracting an unsigned integer from a tagged value returns.
pub open spec fn spec_value_uint(v: ValueView) -> Result<u64, ItemError> {
    match v {
        ValueView::Generic(GenView::Scalar(ScalarView::Uint(u))) => Ok(u),
        _ => Err(spec_mismatch(AMvalType::Uint.spec_bits(), v)),
    }
}

/// What extracting a float's bit pattern from a tagged value returns.
pub open spec fn spec_value_f64_bits(v: ValueView) -> Result<u64, ItemError> {
    match v {
        ValueView::Generic(GenView::Scalar(ScalarView::F64Bits(f))) => Ok(f),
        _ => Err(spec_mismatch(AMvalType::F64.spec_bits(), v)),
    }
}

/// What extracting an unknown-typed value from a tagged value returns.
pub open spec fn spec_value_unknown(v: ValueView) -> Result<UnknownView, ItemError> {
    match v {
        ValueView::Generic(GenView::Scalar(ScalarView::Unknown { type_code, bytes })) => Ok(
            UnknownView { bytes, type_code },
        ),
        _ => Err(spec_mismatch(AMvalType::Unknown.spec_bits(), v)),
    }
}

/// What extracting the whole scalar from a tagged value returns.
pub open spec fn spec_value_scalar(v: ValueView) -> Result<ScalarView, ItemError> {
    match v {
        ValueView::Generic(GenView::Scalar(s)) => Ok(s),
        _ => Err(spec_mismatch(crate::tag::SCALAR_VALUE_MASK, v)),
    }
}

/// What extracting a change's binary encoding from a tagged value returns.
pub open spec fn spec_value_change(v: ValueView) -> Result<Seq<u8>, ItemError> {
    match v {
        ValueView::Change { bytes, .. } => Ok(bytes),
        _ => Err(spec_mismatch(AMvalType::Change.spec_bits(), v)),
    }
}

/// What extracting the actor identifier's foreign projection (its lowercase
/// hex spelling) returns.
pub open spec fn spec_value_actor_hex(v: ValueView) -> Result<Seq<char>, ItemError> {
    match v {
        ValueView::ActorId(b) => Ok(spec_hex(b)),
        _ => Err(spec_mismatch(AMvalType::ActorId.spec_bits(), v)),
    }
}

/// What extracting a change's foreign projection (its hash bytes) returns.
pub open spec fn spec_value_change_span(v: ValueView) -> Result<Seq<u8>, ItemError> {
    match v {
        ValueView::Change { hash, .. } => Ok(hash),
        _ => Err(spec_mismatch(AMvalType::Change.spec_bits(), v)),
    }
}

/// What extracting a synchronization "have" record returns.
pub open spec fn spec_value_sync_have(v: ValueView) -> Result<Seq<Seq<u8>>, ItemError> {
    match v {
        ValueView::SyncHave(h) => Ok(h),
        _ => Err(spec_mismatch(AMvalType::SyncHave.spec_bits(), v)),
    }
}

/// What extracting a synchronization message's encoding returns.
pub open spec fn spec_value_sync_message(v: ValueView) -> Result<Seq<u8>, ItemError> {
    match v {
        ValueView::SyncMessage(b) => Ok(b),
        _ => Err(spec_mismatch(AMvalType::SyncMessage.spec_bits(), v)),
    }
}

/// What extracting synchronization session state returns.
pub open spec fn spec_value_sync_state(v: ValueView) -> Result<Seq<u8>, ItemError> {
    match v {
        ValueView::SyncState(b) => Ok(b),
        _ => Err(spec_mismatch(AMvalType::SyncState.spec_bits(), v)),
    }
}

/// What extracting a document's identity token returns.
pub open spec fn spec_value_doc(v: ValueView) -> Result<u64, ItemError> {
    match v {
        ValueView::Doc(t) => Ok(t),
        _ => Err(spec_mismatch(AMvalType::Doc.spec_bits(), v)),
    }
}

impl TaggedValue {
    /// Extracts the bytes of an array-of-bytes scalar; fails on any other
    /// kind.
    pub fn try_into_bytes(&self) -> (r: Result<Vec<u8>, ItemError>)
        ensures
            spec_value_bytes(self@) matches Ok(b) ==> (r matches Ok(v) && v@ == b),
            spec_value_bytes(self@) matches Err(e) ==> r == Err::<Vec<u8>, ItemError>(e),
    {
        match self {
            TaggedValue::Generic(GenValue::Scalar(Scalar::Bytes(b))) => Ok(bytes_clone(b)),
            _ => Err(ItemError::InvalidValueType {
                expected: AMvalType::Bytes.bits(),
                unexpected: self.tag().bits(),
            }),
        }
    }

    /// Extracts the 32 bytes of a change hash; fails on any other kind.
    pub fn try_into_change_hash(&self) -> (r: Result<Vec<u8>, ItemError>)
        ensures
            spec_value_change_hash(self@) matches Ok(h) ==> (r matches Ok(v) && v@ == h),
            spec_value_change_hash(self@) matches Err(e) ==> r == Err::<Vec<u8>, ItemError>(e),
    {
        match self {
            TaggedValue::ChangeHash(h) => Ok(bytes_clone(h)),
            _ => Err(ItemError::InvalidValueType {
                expected: AMvalType::ChangeHash.bits(),
                unexpected: self.tag().bits(),
            }),
        }
    }

    /// Extracts a counter's current value; fails on any other kind.
    pub fn try_into_counter(&self) -> (r: Result<i64, ItemError>)
        ensures
            r == spec_value_counter(self@),
    {
        match self {
            TaggedValue::Generic(GenValue::Scalar(Scalar::Counter(c))) => Ok(*c),
            _ => Err(ItemError::InvalidValueType {
                expected: AMvalType::Counter.bits(),
                unexpected: self.tag().bits(),
            }),
        }
    }

    /// Extracts a signed integer; fails on any other kind.
    pub fn try_into_int(&self) -> (r: Result<i64, ItemError>)
        ensures
            r == spec_value_int(self@),
    {
        match self {
            TaggedValue::Generic(GenValue::Scalar(Scalar::Int(x))) => Ok(*x),
            _ => Err(ItemError::InvalidValueType {
                expected: AMvalType::Int.bits(),
                unexpected: self.tag().bits(),
            }),
        }
    }

    /// Extracts a string; fails on any other kind.
    pub fn try_into_str(&self) -> (r: Result<String, ItemError>)
        ensures
            spec_value_str(self@) matches Ok(s) ==> (r matches Ok(v) && v@ == s),
            spec_value_str(self@) matches Err(e) ==> r == Err::<String, ItemError>(e),
    {
        match self {
            TaggedValue::Generic(GenValue::Scalar(Scalar::Str(s))) => Ok(s.clone()),
            _ => Err(ItemError::InvalidValueType {
                expected: AMvalType::Str.bits(),
                unexpected: self.tag().bits(),
            }),
        }
    }

    /// Extracts a timestamp; fails on any other kind.
    pub fn try_into_timestamp(&self) -> (r: Result<i64, ItemError>)
        ensures
            r == spec_value_timestamp(self@),
    {
        match self {
            TaggedValue::Generic(GenValue::Scalar(Scalar::Timestamp(t))) => Ok(*t),
            _ => Err(ItemError::InvalidValueType {
                expected: AMvalType::Timestamp.bits(),
                unexpected: self.tag().bits(),
            }),
        }
    }

    /// Extracts a boolean; fails on any other kind.
    pub fn try_into_bool(&self) -> (r: Result<bool, ItemError>)
        ensures
            r == spec_value_bool(self@),
    {
        match self {
            TaggedValue::Generic(GenValue::Scalar(Scalar::Boolean(b))) => Ok(*b),
            _ => Err(ItemError::InvalidValueType {
                expected: AMvalType::Bool.bits(),
                unexpected: self.tag().bits(),
            }),
        }
    }

    /// Extracts an unsigned integer; fails on any other kind.
    pub fn try_into_uint(&self) -> (r: Result<u64, ItemError>)
        ensures
            r == spec_value_uint(self@),
    {
        match self {
            TaggedValue::Generic(GenValue::Scalar(Scalar::Uint(u))) => Ok(*u),
            _ => Err(ItemError::InvalidValueType {
                expected: AMvalType::Uint.bits(),
                unexpected: self.tag().bits(),
            }),
        }
    }

    /// Extracts a 64-bit float as its bit pattern; fails on any other kind.
    pub fn try_into_f64_bits(&self) -> (r: Result<u64, ItemError>)
        ensures
            r == spec_value_f64_bits(self@),
    {
        match self {
            TaggedValue::Generic(GenValue::Scalar(Scalar::F64Bits(f))) => Ok(*f),
            _ => Err(ItemError::InvalidValueType {
                expected: AMvalType::F64.bits(),
                unexpected: self.tag().bits(),
            }),
        }
    }

    /// Extracts an unknown-typed value; fails on any other kind.
    pub fn try_into_unknown(&self) -> (r: Result<AMunknownValue, ItemError>)
        ensures
            spec_value_unknown(self@) matches Ok(u) ==> (r matches Ok(v) && v@ == u),
            spec_value_unknown(self@) matches Err(e) ==> r == Err::<AMunknownValue, ItemError>(e),
    {
        match self {
            TaggedValue::Generic(GenValue::Scalar(Scalar::Unknown { type_code, bytes })) => Ok(
                AMunknownValue { bytes: bytes_clone(bytes), type_code: *type_code },
            ),
            _ => Err(ItemError::InvalidValueType {
                expected: AMvalType::Unknown.bits(),
                unexpected: self.tag().bits(),
            }),
        }
    }

    /// Extracts the whole scalar; fails unless the value is a scalar of any
    /// kind.
    pub fn try_into_scalar(&self) -> (r: Result<Scalar, ItemError>)
        ensures
            spec_value_scalar(self@) matches Ok(s) ==> (r matches Ok(v) && v@ == s),
            spec_value_scalar(self@) matches Err(e) ==> r == Err::<Scalar, ItemError>(e),
    {
        match self {
            TaggedValue::Generic(GenValue::Scalar(s)) => Ok(s.duplicated()),
            _ => Err(ItemError::InvalidValueType {
                expected: crate::tag::SCALAR_VALUE_MASK,
                unexpected: self.tag().bits(),
            }),
        }
    }

    /// Extracts a change's binary encoding; fails on any other kind.
    pub fn try_into_change(&self) -> (r: Result<Vec<u8>, ItemError>)
        ensures
            spec_value_change(self@) matches Ok(b) ==> (r matches Ok(v) && v@ == b),
            spec_value_change(self@) matches Err(e) ==> r == Err::<Vec<u8>, ItemError>(e),
    {
        match self {
            TaggedValue::Change { bytes, .. } => Ok(bytes_clone(bytes)),
            _ => Err(ItemError::InvalidValueType {
                expected: AMvalType::Change.bits(),
                unexpected: self.tag().bits(),
            }),
        }
    }

    /// Extracts a synchronization "have" record's heads; fails on any other
    /// kind.
    pub fn try_into_sync_have(&self) -> (r: Result<Vec<Vec<u8>>, ItemError>)
        ensures
            spec_value_sync_have(self@) matches Ok(h) ==> (r matches Ok(v) && v.deep_view() == h),
            spec_value_sync_have(self@) matches Err(e) ==> r == Err::<Vec<Vec<u8>>, ItemError>(e),
    {
        match self {
            TaggedValue::SyncHave(h) => Ok(byte_seqs_clone(h)),
            _ => Err(ItemError::InvalidValueType {
                expected: AMvalType::SyncHave.bits(),
                unexpected: self.tag().bits(),
            }),
        }
    }

    /// Extracts a synchronization message's encoding; fails on any other
    /// kind.
    pub fn try_into_sync_message(&self) -> (r: Result<Vec<u8>, ItemError>)
        ensures
            spec_value_sync_message(self@) matches Ok(b) ==> (r matches Ok(v) && v@ == b),
            spec_value_sync_message(self@) matches Err(e) ==> r == Err::<Vec<u8>, ItemError>(e),
    {
        match self {
            TaggedValue::SyncMessage(b) => Ok(bytes_clone(b)),
            _ => Err(ItemError::InvalidValueType {
                expected: AMvalType::SyncMessage.bits(),
                unexpected: self.tag().bits(),
            }),
        }
    }

    /// Extracts synchronization session state; fails on any other kind.
    pub fn try_into_sync_state(&self) -> (r: Result<Vec<u8>, ItemError>)
        ensures
            spec_value_sync_state(self@) matches Ok(b) ==> (r matches Ok(v) && v@ == b),
            spec_value_sync_state(self@) matches Err(e) ==> r == Err::<Vec<u8>, ItemError>(e),
    {
        match self {
            TaggedValue::SyncState(b) => Ok(bytes_clone(b)),
            _ => Err(ItemError::InvalidValueType {
                expected: AMvalType::SyncState.bits(),
                unexpected: self.tag().bits(),
            }),
        }
    }

    /// Extracts a document's identity token; fails on any other kind.
    pub fn doc_token(&self) -> (r: Result<u64, ItemError>)
        ensures
            r == spec_value_doc(self@),
    {
        match self {
            TaggedValue::Doc { token, .. } => Ok(*token),
            _ => Err(ItemError::InvalidValueType {
                expected: AMvalType::Doc.bits(),
                unexpected: self.tag().bits(),
            }),
        }
    }

    /// The foreign-friendly projection of an actor identifier: the lowercase
    /// hex spelling of its bytes, built on first request and memoized in the
    /// projection slot afterwards.  Fails on any other kind, unchanged.
    pub fn actor_hex(&mut self) -> (r: Result<String, ItemError>)
        requires
            old(self).wf(),
        ensures
            final(self)@ == old(self)@,
            final(self).wf(),
            spec_value_actor_hex(old(self)@) matches Ok(h) ==> (r matches Ok(v) && v@ == h
                && !final(self).projection_empty()),
            spec_value_actor_hex(old(self)@) matches Err(e) ==> r == Err::<String, ItemError>(e)
                && *final(self) == *old(self),
    {
        match self {
            TaggedValue::ActorId { bytes, hex_memo } => match hex_memo {
                Option::Some(h) => Ok(h.clone()),
                Option::None => {
                    let h = hex_of_bytes(bytes);
                    *hex_memo = Some(h.clone());
                    Ok(h)
                },
            },
            _ => Err(ItemError::InvalidValueType {
                expected: AMvalType::ActorId.bits(),
                unexpected: self.tag().bits(),
            }),
        }
    }

    /// The foreign-friendly projection of a change: its hash bytes, built on
    /// first request and memoized in the projection slot afterwards.  Fails
    /// on any other kind, unchanged.
    pub fn change_span(&mut self) -> (r: Result<Vec<u8>, ItemError>)
        requires
            old(self).wf(),
        ensures
            final(self)@ == old(self)@,
            final(self).wf(),
            spec_value_change_span(old(self)@) matches Ok(h) ==> (r matches Ok(v) && v@ == h
                && !final(self).projection_empty()),
            spec_value_change_span(old(self)@) matches Err(e) ==> r == Err::<Vec<u8>, ItemError>(e)
                && *final(self) == *old(self),
    {
        match self {
            TaggedValue::Change { hash, span_memo, .. } => match span_memo {
                Option::Some(s) => Ok(bytes_clone(s)),
                Option::None => {
                    let s = bytes_clone(hash);
                    *span_memo = Some(bytes_clone(&s));
                    Ok(s)
                },
            },
            _ => Err(ItemError::InvalidValueType {
                expected: AMvalType::Change.bits(),
                unexpected: self.tag().bits(),
            }),
        }
    }

    /// Replaces the engine document behind a document value, handing the
    /// previous document back; the identity token is unchanged, since the
    /// value still stands for the same document instance.  On any other kind
    /// the replacement is handed back untouched with the error.
    pub fn swap_doc(&mut self, new_doc: automerge::AutoCommit) -> (r: Result<
        automerge::AutoCommit,
        (automerge::AutoCommit, ItemError),
    >)
        ensures
            final(self)@ == old(self)@,
            old(self).wf() ==> final(self).wf(),
            old(self)@ is Doc ==> r is Ok,
            !(old(self)@ is Doc) ==> (r matches Err((_, e)) && e == spec_mismatch(
                AMvalType::Doc.spec_bits(),
                old(self)@,
            )),
    {
        match self {
            TaggedValue::Doc { doc, .. } => {
                let mut prev = new_doc;
                core::mem::swap(doc, &mut prev);
                Ok(prev)
            },
            _ => Err(
                (
                    new_doc,
                    ItemError::InvalidValueType {
                        expected: AMvalType::Doc.bits(),
                        unexpected: self.tag().bits(),
                    },
                ),
            ),
        }
    }
}

impl vstd::std_specs::cmp::PartialEqSpecImpl for TaggedValue {
    open spec fn obeys_eq_spec() -> bool {
        true
    }

    open spec fn eq_spec(&self, other: &Self) -> bool {
        self@ == other@
    }
}

impl PartialEq for TaggedValue {
    fn eq(&self, other: &Self) -> (r: bool) {
        match (self, other) {
            (
                TaggedValue::ActorId { bytes: a, .. },
                TaggedValue::ActorId { bytes: b, .. },
            ) => bytes_eq(a, b),
            (
                TaggedValue::Change { bytes: a, hash: h1, .. },
                TaggedValue::Change { bytes: b, hash: h2, .. },
            ) => bytes_eq(a, b) && bytes_eq(h1, h2),
            (TaggedValue::ChangeHash(a), TaggedValue::ChangeHash(b)) => bytes_eq(a, b),
            (
                TaggedValue::Doc { token: t1, .. },
                TaggedValue::Doc { token: t2, .. },
            ) => t1 == t2,
            (TaggedValue::SyncHave(a), TaggedValue::SyncHave(b)) => byte_seqs_eq(a, b),
            (TaggedValue::SyncMessage(a), TaggedValue::SyncMessage(b)) => bytes_eq(a, b),
            (TaggedValue::SyncState(a), TaggedValue::SyncState(b)) => bytes_eq(a, b),
            (TaggedValue::Generic(a), TaggedValue::Generic(b)) => a == b,
            _ => false,
        }
    }
}

} // verus!
