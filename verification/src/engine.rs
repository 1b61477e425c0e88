//! The network engine's state between loop iterations, and the transition it
//! makes on each event the multiplex loop can observe. The caller owns the
//! socket and the waiting; the engine owns the decisions: what to put on the
//! wire, what to append to the transcript, when the loop is over, and what
//! the joining thread is told at the end.
//!
//! Wire format: none. The datagram handed to the socket is the enqueued
//! message's bytes, unchanged; an inbound datagram's payload is taken as raw
//! UTF-8 text, and a payload that does not decode is discarded without a
//! trace — it never corrupts the transcript and never stops the loop.

use vstd::prelude::*;
use vstd::utf8::{decode_utf8, valid_utf8};
use crate::chat_log::{line_of, ChatLog};
use crate::decode::decode_datagram;

verus! {

/// Capacity of the fixed receive buffer: an inbound datagram longer than
/// this is truncated by the socket layer before decode. A declared
/// limitation of the wire format, not one to widen silently.
pub const RECV_BUFFER_LEN: usize = 64;

/// The I/O failure that ended the loop, as the joining thread learns it.
#[derive(Clone, Copy, Debug, PartialEq, Eq, Structural)]
pub enum IoError {
    /// A send on the bound socket failed: the engine cannot safely go on.
    Send,
    /// A receive failed with something other than "would block".
    Recv,
}

/// What became of one inbound datagram.
#[derive(Clone, Copy, Debug, PartialEq, Eq, Structural)]
pub enum InboundOutcome {
    /// The payload decoded; one line was appended to the transcript.
    Appended,
    /// The payload was not valid UTF-8; it was dropped, nothing changed.
    Discarded,
}

/// The engine: running until it either observes the closed-and-empty queue
/// (normal termination) or suffers a fatal I/O failure. It records the
/// transcript it publishes and, in ghost state, every datagram it has handed
/// to the socket, in order.
pub struct Engine {
    stopped: bool,
    fault: Option<IoError>,
    log: ChatLog,
    sent: Ghost<Seq<Seq<u8>>>,
}

impl Engine {
    /// True once the multiplex loop has exited, normally or not.
    pub closed spec fn is_stopped(&self) -> bool {
        self.stopped
    }

    /// The failure that ended the loop, if it did not end normally.
    pub closed spec fn fault_of(&self) -> Option<IoError> {
        self.fault
    }

    /// The transcript published to observers.
    pub closed spec fn log_view(&self) -> Seq<char> {
        self.log@
    }

    /// Every datagram handed to the socket so far, in send order.
    pub closed spec fn sent_view(&self) -> Seq<Seq<u8>> {
        self.sent@
    }

    /// A freshly started engine: running, no fault, empty transcript,
    /// nothing sent.
    pub fn new() -> (e: Engine)
        ensures
            !e.is_stopped(),
            e.fault_of() is None,
            e.log_view() == Seq::<char>::empty(),
            e.sent_view() == Seq::<Seq<u8>>::empty(),
    {
        Engine { stopped: false, fault: None, log: ChatLog::new(), sent: Ghost(Seq::empty()) }
    }

    /// Priority 1, a message is available: the engine hands the caller the
    /// datagram to put on the wire — the message bytes, unchanged — and
    /// records it as sent. Nothing else moves.
    pub fn on_outbound(&mut self, msg: Vec<u8>) -> (datagram: Vec<u8>)
        requires
            !old(self).is_stopped(),
        ensures
            datagram@ == msg@,
            final(self).sent_view() == old(self).sent_view().push(msg@),
            !final(self).is_stopped(),
            final(self).fault_of() == old(self).fault_of(),
            final(self).log_view() == old(self).log_view(),
    {
        proof {
            self.sent@ = self.sent@.push(msg@);
        }
        msg
    }

    /// Priority 1, the queue is closed and empty: the sole normal
    /// termination. The loop exits cleanly, with no fault to report.
    pub fn on_queue_closed(&mut self)
        requires
            !old(self).is_stopped(),
        ensures
            final(self).is_stopped(),
            final(self).fault_of() == old(self).fault_of(),
            final(self).log_view() == old(self).log_view(),
            final(self).sent_view() == old(self).sent_view(),
    {
        self.stopped = true;
    }

    /// Priority 2, one inbound datagram. A payload that decodes as UTF-8
    /// appends exactly one line, `[src]: text` plus a newline, to the
    /// transcript; a payload that does not leaves the transcript untouched.
    /// Either way the loop goes on, and the transcript only ever grows.
    pub fn on_inbound(&mut self, data: &[u8], src: &str) -> (out: InboundOutcome)
        requires
            !old(self).is_stopped(),
        ensures
            valid_utf8(data@) ==> out == InboundOutcome::Appended && final(self).log_view() == old(
                self,
            ).log_view() + line_of(src@, decode_utf8(data@)),
            !valid_utf8(data@) ==> out == InboundOutcome::Discarded && final(self).log_view()
                == old(self).log_view(),
            old(self).log_view().is_prefix_of(final(self).log_view()),
            !final(self).is_stopped(),
            final(self).fault_of() == old(self).fault_of(),
            final(self).sent_view() == old(self).sent_view(),
    {
        match decode_datagram(data) {
            Some(text) => {
                self.log.append_line(src, text.as_str());
                InboundOutcome::Appended
            },
            None => InboundOutcome::Discarded,
        }
    }

    /// The send the engine asked for failed: fatal, the loop exits and the
    /// failure becomes the engine's terminal result.
    pub fn on_send_error(&mut self)
        requires
            !old(self).is_stopped(),
        ensures
            final(self).is_stopped(),
            final(self).fault_of() == Some(IoError::Send),
            final(self).log_view() == old(self).log_view(),
            final(self).sent_view() == old(self).sent_view(),
    {
        self.stopped = true;
        self.fault = Some(IoError::Send);
    }

    /// A receive failed with something other than "would block": fatal in
    /// the same way.
    pub fn on_recv_error(&mut self)
        requires
            !old(self).is_stopped(),
        ensures
            final(self).is_stopped(),
            final(self).fault_of() == Some(IoError::Recv),
            final(self).log_view() == old(self).log_view(),
            final(self).sent_view() == old(self).sent_view(),
    {
        self.stopped = true;
        self.fault = Some(IoError::Recv);
    }

    /// Consumer interface: the full accumulated transcript so far.
    pub fn current_log(&self) -> (s: String)
        ensures
            s@ == self.log_view(),
    {
        self.log.current_log()
    }

    /// The terminal result the joining thread receives: `Ok` exactly when
    /// the loop ended normally, otherwise the I/O failure that ended it.
    pub fn outcome(&self) -> (r: Result<(), IoError>)
        requires
            self.is_stopped(),
        ensures
            self.fault_of() is None ==> r is Ok,
            self.fault_of() matches Some(f) ==> r == Err::<(), IoError>(f),
    {
        match self.fault {
            None => Ok(()),
            Some(f) => Err(f),
        }
    }
}

} // verus!
