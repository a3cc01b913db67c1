//! What an instance has to tell whoever watches it.

use crate::ident::Uuid;
use vstd::prelude::*;

verus! {

/// A notification about one instance.
#[derive(Debug)]
pub enum Payload {
    Chat { message: String },
    Disconnect { reason: Option<String> },
    Connect { latency: u64 },
}

impl Clone for Payload {
    fn clone(&self) -> (copy: Self)
        ensures
            copy == *self,
    {
        match self {
            Payload::Chat { message } => Payload::Chat { message: message.clone() },
            Payload::Disconnect { reason } => Payload::Disconnect {
                reason: crate::auth::clone_text(reason),
            },
            Payload::Connect { latency } => Payload::Connect { latency: *latency },
        }
    }
}

/// A notification and the instance that it is about.
#[derive(Debug)]
pub struct Event {
    pub key: Uuid,
    pub payload: Payload,
}

} // verus!
