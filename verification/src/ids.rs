//! Typed identifiers. Each wraps a 64-bit integer and is a type of its own,
//! so that an identifier of one kind is never taken for one of another.

use vstd::prelude::*;

verus! {

/// Identifier of a user. Valid identifiers are strictly positive.
#[derive(Clone, Copy, Debug, PartialEq, Eq, Hash, Structural)]
pub struct UserId(pub i64);

impl UserId {
    /// The least identifier that can be represented.
    pub fn min_id() -> (id: UserId)
        ensures
            id.0 == i64::MIN,
    {
        UserId(i64::MIN)
    }

    /// The identifier that stands for "no user". It is not valid.
    pub fn invalid() -> (id: UserId)
        ensures
            id.0 == 0,
            !id.spec_is_valid(),
    {
        UserId(0)
    }

    pub open spec fn spec_is_valid(&self) -> bool {
        self.0 > 0
    }

    #[verifier::when_used_as_spec(spec_is_valid)]
    pub fn is_valid(&self) -> (valid: bool)
        ensures
            valid == (self.0 > 0),
    {
        self.0 > 0
    }
}

/// Identifier of a chat.
#[derive(Clone, Copy, Debug, PartialEq, Eq, Hash, Structural)]
pub struct ChatId(pub i64);

/// Identifier that the source of a history gave to a message. It is stable
/// across loads and ordered.
#[derive(Clone, Copy, Debug, PartialEq, Eq, Hash, PartialOrd, Ord, Structural)]
pub struct MessageSourceId(pub i64);

/// Identifier given to a message while its chat is loaded: dense and
/// zero-based within the chat, and meaningless across loads.
#[derive(Clone, Copy, Debug, PartialEq, Eq, Hash, PartialOrd, Ord, Structural)]
pub struct MessageInternalId(pub i64);

/// The raw value that marks a message without an internal identifier.
pub const NO_INTERNAL_ID: i64 = -1;

impl MessageInternalId {
    /// The identifier of a message that has none yet.
    pub fn none() -> (id: MessageInternalId)
        ensures
            id.0 == NO_INTERNAL_ID,
    {
        MessageInternalId(NO_INTERNAL_ID)
    }
}

/// Number of epoch seconds.
#[derive(Clone, Copy, Debug, PartialEq, Eq, Hash, PartialOrd, Ord, Structural)]
pub struct Timestamp(pub i64);

impl Timestamp {
    /// The earliest moment a message can carry.
    pub fn earliest() -> (t: Timestamp)
        ensures
            t.0 == 0,
    {
        Timestamp(0)
    }

    /// The latest moment a message can carry.
    pub fn latest() -> (t: Timestamp)
        ensures
            t.0 == i64::MAX,
    {
        Timestamp(i64::MAX)
    }
}

/// Internal identifier of a message on the master side of a merge.
#[derive(Clone, Copy, Debug, PartialEq, Eq, Structural)]
pub struct MasterInternalId(pub i64);

impl MasterInternalId {
    /// Forgets the side the identifier came from.
    pub fn generalize(&self) -> (id: MessageInternalId)
        ensures
            id.0 == self.0,
    {
        MessageInternalId(self.0)
    }
}

/// Internal identifier of a message on the slave side of a merge.
#[derive(Clone, Copy, Debug, PartialEq, Eq, Structural)]
pub struct SlaveInternalId(pub i64);

impl SlaveInternalId {
    /// Forgets the side the identifier came from.
    pub fn generalize(&self) -> (id: MessageInternalId)
        ensures
            id.0 == self.0,
    {
        MessageInternalId(self.0)
    }
}

} // verus!
