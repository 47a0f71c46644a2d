//! The semantic category of an envelope and its name on the wire.
use vstd::prelude::*;
use vstd::string::StringExecFns;

verus! {

/// What an envelope is about: one of the protocol's own events, or an event
/// of the application identified by its name.
#[derive(Debug, Clone, PartialEq)]
pub enum EventKind {
    Join,
    Leave,
    Heartbeat,
    Reply,
    Error,
    Custom(String),
}

/// The name under which an event travels in an envelope.
pub open spec fn wire_name(e: EventKind) -> Seq<char> {
    match e {
        EventKind::Join => "phx_join"@,
        EventKind::Leave => "phx_leave"@,
        EventKind::Heartbeat => "heartbeat"@,
        EventKind::Reply => "phx_reply"@,
        EventKind::Error => "phx_error"@,
        EventKind::Custom(s) => s@,
    }
}

/// Whether a wire name belongs to one of the protocol's own events.
pub open spec fn is_reserved(s: Seq<char>) -> bool {
    s == "phx_join"@ || s == "phx_leave"@ || s == "heartbeat"@ || s == "phx_reply"@ || s
        == "phx_error"@
}

/// `e` is the event that the wire name `s` stands for: a reserved name gives
/// the protocol's event, any other name an application event of that name.
pub open spec fn names_event(e: EventKind, s: Seq<char>) -> bool {
    match e {
        EventKind::Custom(c) => c@ == s && !is_reserved(s),
        _ => wire_name(e) == s,
    }
}

impl EventKind {
    /// The name of this event on the wire.
    pub fn wire_name(&self) -> (r: String)
        ensures
            r@ == wire_name(*self),
    {
        match self {
            EventKind::Join => String::from_str("phx_join"),
            EventKind::Leave => String::from_str("phx_leave"),
            EventKind::Heartbeat => String::from_str("heartbeat"),
            EventKind::Reply => String::from_str("phx_reply"),
            EventKind::Error => String::from_str("phx_error"),
            EventKind::Custom(s) => s.clone(),
        }
    }

    /// The event that a wire name stands for.
    pub fn from_wire(name: String) -> (r: EventKind)
        ensures
            names_event(r, name@),
    {
        if name == String::from_str("phx_join") {
            EventKind::Join
        } else if name == String::from_str("phx_leave") {
            EventKind::Leave
        } else if name == String::from_str("heartbeat") {
            EventKind::Heartbeat
        } else if name == String::from_str("phx_reply") {
            EventKind::Reply
        } else if name == String::from_str("phx_error") {
            EventKind::Error
        } else {
            EventKind::Custom(name)
        }
    }
}

} // verus!
