//! One protocol envelope.
use vstd::prelude::*;
use crate::event::EventKind;

verus! {

/// One envelope, inbound or outbound. The payload is kept as the exact JSON
/// text of its value, so it passes through without loss.
#[derive(Debug, Clone, PartialEq)]
pub struct Message {
    pub topic: String,
    pub event: EventKind,
    pub payload: String,
    pub reference: Option<String>,
}

} // verus!
