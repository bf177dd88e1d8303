//! Messages as plugin hooks see them, and the quality-of-service levels.

use vstd::prelude::*;

verus! {

/// A message on its way through the broker: borrowed from the broker's memory for as
/// long as the hook runs.
#[derive(Debug, Clone, Copy)]
pub struct MosquittoMessage<'a> {
    pub topic: &'a str,
    pub payload: &'a [u8],
    pub qos: i32,
    pub retain: bool,
}

/// Delivery guarantee of a published message.
#[derive(Debug, Clone, Copy, PartialEq, Eq, Structural)]
pub enum QOS {
    AtMostOnce,
    AtLeastOnce,
    ExactlyOnce,
}

impl QOS {
    /// The level as the broker counts it.
    pub open spec fn level(self) -> int {
        match self {
            QOS::AtMostOnce => 0,
            QOS::AtLeastOnce => 1,
            QOS::ExactlyOnce => 2,
        }
    }

    /// The number that the broker's interface takes for this level.
    pub fn to_i32(&self) -> (level: i32)
        ensures
            level == self.level(),
    {
        match self {
            QOS::AtMostOnce => 0,
            QOS::AtLeastOnce => 1,
            QOS::ExactlyOnce => 2,
        }
    }
}

} // verus!
