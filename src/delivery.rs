//! The task that hands inbound items to the application.
use vstd::prelude::*;
use crate::error::MessageError;
use crate::message::Message;

verus! {

/// The state of the delivery task. It forwards each item pulled from the
/// receiver and stops for good when the receiver ends or the application
/// closes its channel.
pub struct Delivery {
    finished: bool,
}

impl View for Delivery {
    type V = bool;

    /// Whether the task has stopped.
    closed spec fn view(&self) -> bool {
        self.finished
    }
}

/// A step of a stopped task stays stopped and forwards nothing.
pub open spec fn stays_stopped(before: Delivery, after: Delivery, forwarded: bool) -> bool {
    before@ ==> (after@ && !forwarded)
}

impl Delivery {
    /// A running task.
    pub fn new() -> (r: Delivery)
        ensures
            !r@,
    {
        Delivery { finished: false }
    }

    /// Whether the task has stopped; a stopped task pulls nothing more.
    pub fn is_finished(&self) -> (r: bool)
        ensures
            r == self@,
    {
        self.finished
    }

    /// Takes what the receiver gave: returns the item to forward, or `None`
    /// when there is nothing to forward. The end of the receiver's sequence
    /// stops the task.
    pub fn on_pulled(
        &mut self,
        item: Option<Result<Message, MessageError>>,
    ) -> (r: Option<Result<Message, MessageError>>)
        ensures
            stays_stopped(*old(self), *final(self), r is Some),
            !old(self)@ ==> r == item && final(self)@ == item is None,
    {
        if self.finished {
            return None;
        }
        match item {
            Some(m) => Some(m),
            None => {
                self.finished = true;
                None
            },
        }
    }

    /// Takes whether the application's channel accepted the forwarded item;
    /// a closed channel stops the task.
    pub fn on_forwarded(&mut self, accepted: bool)
        ensures
            stays_stopped(*old(self), *final(self), false),
            final(self)@ == (old(self)@ || !accepted),
    {
        if !accepted {
            self.finished = true;
        }
    }
}

/// Once the channel has refused an item, no later step of the task forwards
/// anything: over a run of steps, every one after a step that stopped the
/// task forwards nothing.
pub proof fn closed_channel_stops_delivery(states: Seq<Delivery>, forwarded: Seq<bool>, i: int, j: int)
    requires
        states.len() == forwarded.len() + 1,
        forall|k: int| 0 <= k < forwarded.len() ==> stays_stopped(#[trigger] states[k], states[k + 1], forwarded[k]),
        0 <= i <= j < forwarded.len(),
        states[i]@,
    ensures
        !forwarded[j],
        states[j + 1]@,
    decreases j - i,
{
    if i < j {
        closed_channel_stops_delivery(states, forwarded, i, j - 1);
    }
    assert(stays_stopped(states[j], states[j + 1], forwarded[j]));
}

} // verus!
