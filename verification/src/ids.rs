use vstd::prelude::*;

verus! {

/// Identifier of a program or user account: its 32 bytes read as four
/// little-endian 64-bit words, lowest word first.
#[derive(Clone, Copy, Debug, PartialEq, Eq, Structural)]
pub struct ActorId(pub u64, pub u64, pub u64, pub u64);

/// Identifier of a message, laid out as `ActorId` is.
#[derive(Clone, Copy, Debug, PartialEq, Eq, Structural)]
pub struct MessageId(pub u64, pub u64, pub u64, pub u64);

impl ActorId {
    /// The identifier whose lowest word is `n` and whose other words are zero.
    pub fn from_u64(n: u64) -> (id: ActorId)
        ensures
            id == ActorId(n, 0, 0, 0),
    {
        ActorId(n, 0, 0, 0)
    }
}

impl MessageId {
    /// The all-zero message identifier.
    pub fn zero() -> (id: MessageId)
        ensures
            id == MessageId(0, 0, 0, 0),
    {
        MessageId(0, 0, 0, 0)
    }
}

} // verus!
