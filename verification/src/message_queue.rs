//! A message processor that accepts everything, for exercising a queue
//! without a real consumer behind it.

use vstd::prelude::*;
use crate::engine::Weight;

verus! {

/// The transport from which a message originates.
#[derive(Clone, Copy, Debug, PartialEq, Eq, Structural)]
pub enum MessageOrigin {
    /// The parent of this ledger.
    Parent,
    /// The peer with the given number.
    Peer(u8),
}

/// Why a message was not processed.
#[derive(Clone, Copy, Debug, PartialEq, Eq, Structural)]
pub enum ProcessMessageError {
    /// The message is not in a format that the processor reads.
    BadFormat,
    /// The message is damaged.
    Corrupt,
    /// The processor does not handle messages of this kind.
    Unsupported,
    /// Processing needs the given weight, which is more than the limit.
    Overweight(Weight),
}

/// Something that processes the messages of a queue.
pub trait ProcessMessage {
    /// The transport from which a message originates.
    type Origin;

    /// Processes the message, using no more than `weight_limit` in weight
    /// to do so. On success says whether the message was handled, and what
    /// the processing cost.
    fn process_message(message: &[u8], origin: Self::Origin, weight_limit: Weight) -> Result<
        (bool, Weight),
        ProcessMessageError,
    >;
}

/// A processor that handles every message at no cost.
#[derive(Clone, Copy, Debug)]
pub struct TestMessageProcessor;

impl ProcessMessage for TestMessageProcessor {
    type Origin = MessageOrigin;

    fn process_message(message: &[u8], origin: MessageOrigin, weight_limit: Weight) -> (processed: Result<
        (bool, Weight),
        ProcessMessageError,
    >)
        ensures
            processed == Ok::<(bool, Weight), ProcessMessageError>((true, 0)),
    {
        Ok((true, 0))
    }
}

} // verus!
