//! The inbound half: what each frame read from the connection yields.
use vstd::prelude::*;
use crate::codec::{decode, decode_outcome};
use crate::error::MessageError;
use crate::message::Message;

verus! {

/// One thing that reading from the connection produced.
#[derive(Debug, Clone, PartialEq)]
pub enum Incoming {
    Text(String),
    Binary(Vec<u8>),
    Ping,
    Pong,
    Close,
    /// The read failed; the text describes why.
    Failure(String),
}

/// What one read means for the sequence of messages.
#[derive(Debug, PartialEq)]
pub enum Pulled {
    /// The next item of the sequence.
    Item(Result<Message, MessageError>),
    /// Nothing for the application; read again.
    Skip,
    /// The connection is closed; the sequence is over.
    End,
}

/// The inbound protocol state of one connection: a sequence of decoded
/// messages and per-frame errors that ends, for good, when the connection
/// closes.
pub struct Receiver {
    ended: bool,
}

impl View for Receiver {
    type V = bool;

    /// Whether the sequence has ended.
    closed spec fn view(&self) -> bool {
        self.ended
    }
}

/// One read: from the state `before`, the frame `frame` yields `r` and leaves
/// the state `after`. An ended sequence stays ended; a close ends it; a text
/// frame yields its decoding; a binary frame or a failed read yields an error
/// item; pings and pongs yield nothing.
pub open spec fn pull_step(before: Receiver, frame: Incoming, r: Pulled, after: Receiver) -> bool {
    if before@ {
        r == Pulled::End && after@
    } else {
        match frame {
            Incoming::Text(t) => (r matches Pulled::Item(x) && decode_outcome(t@, x)) && !after@,
            Incoming::Binary(_) => r == Pulled::Item(Err(MessageError::NotText)) && !after@,
            Incoming::Ping => r == Pulled::Skip && !after@,
            Incoming::Pong => r == Pulled::Skip && !after@,
            Incoming::Close => r == Pulled::End && after@,
            Incoming::Failure(m) => r == Pulled::Item(Err(MessageError::Transport(m))) && !after@,
        }
    }
}

impl Receiver {
    /// The state of a connection that has just been opened.
    pub fn new() -> (r: Receiver)
        ensures
            !r@,
    {
        Receiver { ended: false }
    }

    /// Whether the sequence has ended.
    pub fn is_ended(&self) -> (r: bool)
        ensures
            r == self@,
    {
        self.ended
    }

    /// Takes one frame read from the connection.
    pub fn on_frame(&mut self, frame: Incoming) -> (r: Pulled)
        ensures
            pull_step(*old(self), frame, r, *final(self)),
    {
        if self.ended {
            return Pulled::End;
        }
        match frame {
            Incoming::Text(t) => Pulled::Item(decode(t.as_str())),
            Incoming::Binary(_) => Pulled::Item(Err(MessageError::NotText)),
            Incoming::Ping => Pulled::Skip,
            Incoming::Pong => Pulled::Skip,
            Incoming::Close => {
                self.ended = true;
                Pulled::End
            },
            Incoming::Failure(m) => Pulled::Item(Err(MessageError::Transport(m))),
        }
    }
}

/// An error item does not end the sequence: a text frame read afterwards
/// still yields its decoding.
pub proof fn error_item_keeps_stream_open(
    s0: Receiver,
    f0: Incoming,
    r0: Pulled,
    s1: Receiver,
    f1: Incoming,
    r1: Pulled,
    s2: Receiver,
)
    requires
        !s0@,
        pull_step(s0, f0, r0, s1),
        r0 matches Pulled::Item(Err(_)),
        pull_step(s1, f1, r1, s2),
        f1 is Text,
    ensures
        !s1@,
        r1 matches Pulled::Item(x) && decode_outcome(f1->Text_0@, x),
{
}

} // verus!
