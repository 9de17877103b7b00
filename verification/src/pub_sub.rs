//! The envelope of a message that the worker publishes to other services.

use crate::trusted::{is_random_uuid_text, random_uuid_text};
use vstd::prelude::*;
use vstd::string::StringExecFns;

verus! {

/// The payload of a published message. It carries nothing yet.
#[derive(Debug, Clone, Copy, PartialEq, Eq)]
pub struct MessageData {}

/// A message on its way to the command handler.
#[derive(Debug, Clone, PartialEq, Eq)]
pub struct Message {
    pub id: String,
    pub channel: String,
    pub payload: MessageData,
}

impl Message {
    /// Wraps `payload` for the command handler, under a fresh random
    /// identifier.
    pub fn new(payload: MessageData) -> (message: Self)
        ensures
            is_random_uuid_text(message.id@),
            message.channel@ == "cmd-handler"@,
            message.payload == payload,
    {
        Message { id: random_uuid_text(), channel: String::from_str("cmd-handler"), payload }
    }
}

} // verus!
