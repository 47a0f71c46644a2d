//! The outbound half: correlation references and the envelopes to write.
use vstd::prelude::*;
use vstd::string::StringExecFns;
use crate::codec::{encode, envelope_text};
use crate::error::JoinError;
use crate::event::{EventKind, wire_name};

verus! {

/// The decimal digit `d` as a character.
pub open spec fn digit_char(d: nat) -> char {
    if d == 0 {
        '0'
    } else if d == 1 {
        '1'
    } else if d == 2 {
        '2'
    } else if d == 3 {
        '3'
    } else if d == 4 {
        '4'
    } else if d == 5 {
        '5'
    } else if d == 6 {
        '6'
    } else if d == 7 {
        '7'
    } else if d == 8 {
        '8'
    } else {
        '9'
    }
}

/// `n` in decimal, without leading zeros.
pub open spec fn decimal(n: nat) -> Seq<char>
    decreases n,
{
    if n < 10 {
        seq![digit_char(n)]
    } else {
        decimal(n / 10) + seq![digit_char(n % 10)]
    }
}

fn digit_text(d: u32) -> (r: String)
    requires
        d < 10,
    ensures
        r@ == seq![digit_char(d as nat)],
{
    let r = if d == 0 {
        String::from_str("0")
    } else if d == 1 {
        String::from_str("1")
    } else if d == 2 {
        String::from_str("2")
    } else if d == 3 {
        String::from_str("3")
    } else if d == 4 {
        String::from_str("4")
    } else if d == 5 {
        String::from_str("5")
    } else if d == 6 {
        String::from_str("6")
    } else if d == 7 {
        String::from_str("7")
    } else if d == 8 {
        String::from_str("8")
    } else {
        String::from_str("9")
    };
    proof {
        reveal_strlit("0");
        reveal_strlit("1");
        reveal_strlit("2");
        reveal_strlit("3");
        reveal_strlit("4");
        reveal_strlit("5");
        reveal_strlit("6");
        reveal_strlit("7");
        reveal_strlit("8");
        reveal_strlit("9");
    }
    assert(r@ =~= seq![digit_char(d as nat)]);
    r
}

/// The decimal text of a reference.
pub fn decimal_text(n: u32) -> (r: String)
    ensures
        r@ == decimal(n as nat),
    decreases n,
{
    if n < 10 {
        digit_text(n)
    } else {
        let mut r = decimal_text(n / 10);
        let d = digit_text(n % 10);
        r.append(d.as_str());
        r
    }
}

/// The topic that heartbeats are sent on.
pub const HEARTBEAT_TOPIC: &'static str = "phoenix";

/// The payload of a heartbeat: an empty object.
pub const EMPTY_PAYLOAD: &'static str = "{}";

/// The envelope text for a message stamped with the reference `n`.
pub open spec fn stamped_text(topic: Seq<char>, event: EventKind, payload: Seq<char>, n: u32) -> Seq<char> {
    envelope_text(topic, wire_name(event), payload, Some(decimal(n as nat)))
}

/// The outbound protocol state of one connection. It hands out correlation
/// references, each larger than every one before it, and builds the envelope
/// text that the connection is to write.
pub struct Sender {
    next_ref: u32,
}

impl View for Sender {
    type V = nat;

    /// The next reference to hand out.
    closed spec fn view(&self) -> nat {
        self.next_ref as nat
    }
}

/// One call that may assign a reference: `assigned` is the reference it took,
/// if any. A reference is taken exactly when one is left; it is the next one,
/// and the counter moves past it.
pub open spec fn ref_step(before: Sender, after: Sender, assigned: Option<u32>) -> bool {
    if before@ < u32::MAX {
        assigned == Some(before@ as u32) && after@ == before@ + 1
    } else {
        assigned is None && after@ == before@
    }
}

/// What a join on `channel` returns from the state `before`: the reference it
/// took and the join envelope carrying it, or `ReferencesExhausted`.
pub open spec fn join_result(before: Sender, channel: Seq<char>, r: Result<(u32, String), JoinError>) -> bool {
    match r {
        Ok((n, frame)) => n == before@ && frame@ == stamped_text(channel, EventKind::Join, EMPTY_PAYLOAD@, n),
        Err(e) => e == JoinError::ReferencesExhausted && before@ == u32::MAX,
    }
}

/// The reference a join result took, if any.
pub open spec fn join_ref(r: Result<(u32, String), JoinError>) -> Option<u32> {
    match r {
        Ok((n, _)) => Some(n),
        Err(_) => None,
    }
}

impl Sender {
    /// A fresh connection's state; references start at 1.
    pub fn new() -> (r: Sender)
        ensures
            r@ == 1,
    {
        Sender { next_ref: 1 }
    }

    /// The next reference to be handed out.
    pub fn next_ref(&self) -> (r: u32)
        ensures
            r == self@,
    {
        self.next_ref
    }

    fn take_ref(&mut self) -> (r: Option<u32>)
        ensures
            ref_step(*old(self), *final(self), r),
    {
        if self.next_ref < u32::MAX {
            let n = self.next_ref;
            self.next_ref = n + 1;
            Some(n)
        } else {
            None
        }
    }

    /// The envelope for a message of the application, stamped with a fresh
    /// reference; `None` once the references are used up, when nothing is to
    /// be sent. `payload` is JSON text.
    pub fn send(&mut self, topic: &str, event: EventKind, payload: &str) -> (r: Option<String>)
        ensures
            ref_step(*old(self), *final(self), match r {
                Some(_) => Some(old(self)@ as u32),
                None => None,
            }),
            r matches Some(frame) ==> frame@ == stamped_text(topic@, event, payload@, old(self)@ as u32),
    {
        match self.take_ref() {
            Some(n) => {
                let reference = Some(decimal_text(n));
                Some(encode(topic, &event, payload, &reference))
            },
            None => None,
        }
    }

    /// The heartbeat envelope: topic `phoenix`, the heartbeat event, an empty
    /// object as payload and no reference.
    pub fn heartbeat(&self) -> (r: String)
        ensures
            r@ == envelope_text(HEARTBEAT_TOPIC@, wire_name(EventKind::Heartbeat), EMPTY_PAYLOAD@, None),
    {
        encode(HEARTBEAT_TOPIC, &EventKind::Heartbeat, EMPTY_PAYLOAD, &None)
    }

    /// Takes a reference for joining `channel` and builds the join envelope
    /// that carries it.
    pub fn join(&mut self, channel: &str) -> (r: Result<(u32, String), JoinError>)
        ensures
            join_result(*old(self), channel@, r),
            ref_step(*old(self), *final(self), join_ref(r)),
    {
        match self.take_ref() {
            Some(n) => {
                let reference = Some(decimal_text(n));
                let frame = encode(channel, &EventKind::Join, EMPTY_PAYLOAD, &reference);
                Ok((n, frame))
            },
            None => Err(JoinError::ReferencesExhausted),
        }
    }
}

/// What a join reports once its envelope has been written, or has failed to
/// be: the reference on success, `JoinError::Write` with the failure otherwise.
pub fn join_outcome(reference: u32, written: Result<(), String>) -> (r: Result<u32, JoinError>)
    ensures
        match written {
            Ok(()) => r == Ok::<u32, JoinError>(reference),
            Err(msg) => r == Err::<u32, JoinError>(JoinError::Write(msg)),
        },
{
    match written {
        Ok(()) => Ok(reference),
        Err(msg) => Err(JoinError::Write(msg)),
    }
}

/// The counter never goes back over a run of calls.
proof fn refs_monotone(states: Seq<Sender>, assigned: Seq<Option<u32>>, i: int, j: int)
    requires
        states.len() == assigned.len() + 1,
        forall|k: int| 0 <= k < assigned.len() ==> ref_step(#[trigger] states[k], states[k + 1], assigned[k]),
        0 <= i <= j < states.len(),
    ensures
        states[i]@ <= states[j]@,
    decreases j - i,
{
    if i < j {
        refs_monotone(states, assigned, i, j - 1);
        assert(ref_step(states[j - 1], states[j], assigned[j - 1]));
    }
}

/// Over any run of calls on one sender, the references handed out are
/// pairwise distinct and strictly increasing in call order.
pub proof fn references_strictly_increase(states: Seq<Sender>, assigned: Seq<Option<u32>>, i: int, j: int)
    requires
        states.len() == assigned.len() + 1,
        forall|k: int| 0 <= k < assigned.len() ==> ref_step(#[trigger] states[k], states[k + 1], assigned[k]),
        0 <= i < j < assigned.len(),
        assigned[i] is Some,
        assigned[j] is Some,
    ensures
        assigned[i]->0 < assigned[j]->0,
{
    assert(ref_step(states[i], states[i + 1], assigned[i]));
    assert(ref_step(states[j], states[j + 1], assigned[j]));
    refs_monotone(states, assigned, i + 1, j);
}

} // verus!
