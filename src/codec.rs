//! The envelope codec: messages to and from the wire's JSON objects.
use vstd::prelude::*;
use vstd::string::StringExecFns;
use crate::error::MessageError;
use crate::event::{EventKind, names_event, wire_name};
use crate::json::{json_quoted, json_string_of, members_view, object_members_of, parse_object, parse_string, quote};
use crate::message::Message;

verus! {

/// The wire text of an envelope: an object with the members `topic`, `event`,
/// `payload` and `ref`, the last one `null` where there is no reference.
pub open spec fn envelope_text(
    topic: Seq<char>,
    event: Seq<char>,
    payload: Seq<char>,
    reference: Option<Seq<char>>,
) -> Seq<char> {
    "{\"topic\":"@ + json_quoted(topic) + ",\"event\":"@ + json_quoted(event) + ",\"payload\":"@
        + payload + ",\"ref\":"@ + match reference {
        Some(r) => json_quoted(r),
        None => "null"@,
    } + "}"@
}

/// The text of the first member named `key`.
pub open spec fn member(ms: Seq<(Seq<char>, Seq<char>)>, key: Seq<char>) -> Option<Seq<char>>
    decreases ms.len(),
{
    if ms.len() == 0 {
        None
    } else if ms[0].0 == key {
        Some(ms[0].1)
    } else {
        member(ms.drop_first(), key)
    }
}

/// The string held by the member `key`, where it is present and a JSON string.
pub open spec fn string_member(ms: Seq<(Seq<char>, Seq<char>)>, key: Seq<char>) -> Option<Seq<char>> {
    match member(ms, key) {
        Some(raw) => json_string_of(raw),
        None => None,
    }
}

/// `r` reports that the member `key` is absent, or present but not a string.
pub open spec fn field_error(ms: Seq<(Seq<char>, Seq<char>)>, key: Seq<char>, r: Result<Message, MessageError>) -> bool {
    if member(ms, key) is None {
        r matches Err(MessageError::MissingField(f)) && f@ == key
    } else {
        r matches Err(MessageError::NotAString(f)) && f@ == key
    }
}

/// What decoding the object with members `ms` gives: an error naming the first
/// of `topic` and `event` that is missing or not a string; otherwise the
/// message with those strings, the payload's text (`null` when absent) and the
/// `ref` string, if `ref` holds one.
pub open spec fn envelope_outcome(ms: Seq<(Seq<char>, Seq<char>)>, r: Result<Message, MessageError>) -> bool {
    if string_member(ms, "topic"@) is None {
        field_error(ms, "topic"@, r)
    } else if string_member(ms, "event"@) is None {
        field_error(ms, "event"@, r)
    } else {
        r matches Ok(m) && m.topic@ == string_member(ms, "topic"@)->0
            && names_event(m.event, string_member(ms, "event"@)->0)
            && m.payload@ == match member(ms, "payload"@) {
                Some(p) => p,
                None => "null"@,
            }
            && match m.reference {
                Some(s) => string_member(ms, "ref"@) == Some(s@),
                None => string_member(ms, "ref"@) is None,
            }
    }
}

/// What decoding the frame `text` gives.
pub open spec fn decode_outcome(text: Seq<char>, r: Result<Message, MessageError>) -> bool {
    match object_members_of(text) {
        None => r == Err::<Message, MessageError>(MessageError::NotAnObject),
        Some(ms) => envelope_outcome(ms, r),
    }
}

/// Writes the envelope for the given fields; `payload` is JSON text, written as it is.
pub fn encode(topic: &str, event: &EventKind, payload: &str, reference: &Option<String>) -> (r: String)
    ensures
        r@ == envelope_text(
            topic@,
            wire_name(*event),
            payload@,
            match reference {
                Some(s) => Some(s@),
                None => None,
            },
        ),
{
    let mut out = String::from_str("{\"topic\":");
    let t = quote(topic);
    out.append(t.as_str());
    out.append(",\"event\":");
    let name = event.wire_name();
    let e = quote(name.as_str());
    out.append(e.as_str());
    out.append(",\"payload\":");
    out.append(payload);
    out.append(",\"ref\":");
    match reference {
        Some(s) => {
            let q = quote(s.as_str());
            out.append(q.as_str());
        },
        None => {
            out.append("null");
        },
    }
    out.append("}");
    proof {
        assert(out@ =~= envelope_text(
            topic@,
            wire_name(*event),
            payload@,
            match reference {
                Some(s) => Some(s@),
                None => None,
            },
        ));
    }
    out
}

/// The text of the first member of `ms` named `key`.
pub fn find_member(ms: &Vec<(String, String)>, key: &str) -> (r: Option<String>)
    ensures
        match r {
            Some(s) => member(members_view(ms@), key@) == Some(s@),
            None => member(members_view(ms@), key@) is None,
        },
{
    let k = String::from_str(key);
    let ghost all = members_view(ms@);
    let mut i: usize = 0;
    assert(all.subrange(0, all.len() as int) =~= all);
    while i < ms.len()
        invariant
            i <= ms.len(),
            all == members_view(ms@),
            k@ == key@,
            member(all, key@) == member(all.subrange(i as int, all.len() as int), key@),
        decreases ms.len() - i,
    {
        let ghost rest = all.subrange(i as int, all.len() as int);
        assert(rest.drop_first() =~= all.subrange(i + 1, all.len() as int));
        if ms[i].0 == k {
            return Some(ms[i].1.clone());
        }
        i = i + 1;
    }
    None
}

/// Looks up `key` and reads it as a JSON string: `Err(true)` where it is
/// absent, `Err(false)` where it is not a string.
fn find_string(ms: &Vec<(String, String)>, key: &str) -> (r: Result<String, bool>)
    ensures
        match r {
            Ok(s) => string_member(members_view(ms@), key@) == Some(s@),
            Err(absent) => string_member(members_view(ms@), key@) is None && absent == member(
                members_view(ms@),
                key@,
            ) is None,
        },
{
    match find_member(ms, key) {
        None => Err(true),
        Some(raw) => match parse_string(raw.as_str()) {
            Ok(s) => Ok(s),
            Err(_) => Err(false),
        },
    }
}

/// The error for a member `key` that is absent or not a string.
fn field_failure(key: &str, absent: bool) -> (r: MessageError)
    ensures
        absent ==> (r matches MessageError::MissingField(f) && f@ == key@),
        !absent ==> (r matches MessageError::NotAString(f) && f@ == key@),
{
    if absent {
        MessageError::MissingField(String::from_str(key))
    } else {
        MessageError::NotAString(String::from_str(key))
    }
}

/// Builds the message from the members of a decoded object.
pub fn decode_members(ms: &Vec<(String, String)>) -> (r: Result<Message, MessageError>)
    ensures
        envelope_outcome(members_view(ms@), r),
{
    let topic = match find_string(ms, "topic") {
        Ok(t) => t,
        Err(absent) => {
            return Err(field_failure("topic", absent));
        },
    };
    let event = match find_string(ms, "event") {
        Ok(e) => e,
        Err(absent) => {
            return Err(field_failure("event", absent));
        },
    };
    let payload = match find_member(ms, "payload") {
        Some(p) => p,
        None => String::from_str("null"),
    };
    let reference = match find_string(ms, "ref") {
        Ok(s) => Some(s),
        Err(_) => None,
    };
    Ok(Message { topic, event: EventKind::from_wire(event), payload, reference })
}

/// Decodes one inbound frame; a frame that is not an object, or lacks a string
/// `topic` or `event`, gives an error.
pub fn decode(frame: &str) -> (r: Result<Message, MessageError>)
    ensures
        decode_outcome(frame@, r),
{
    match parse_object(frame) {
        Err(_) => Err(MessageError::NotAnObject),
        Ok(ms) => decode_members(&ms),
    }
}

/// A frame whose `topic` or `event` is missing decodes to an error.
pub proof fn missing_required_member_rejected(text: Seq<char>, r: Result<Message, MessageError>)
    requires
        decode_outcome(text, r),
        object_members_of(text) matches Some(ms) && (member(ms, "topic"@) is None || member(
            ms,
            "event"@,
        ) is None),
    ensures
        r is Err,
{
}

} // verus!
