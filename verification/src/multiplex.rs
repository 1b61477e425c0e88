//! The multiplexer's fairness policy. On each iteration the loop waits for
//! the first of two sources to become ready; when both are ready at once, the
//! outbound side wins. Checking outbound first on every iteration bounds the
//! send latency of the local user's own messages even under continuous
//! inbound traffic: inbound can never starve outbound.

use vstd::prelude::*;
use crate::queue::Polled;

verus! {

/// One inbound datagram: the payload bytes and a label for its source.
#[derive(Debug)]
pub struct Datagram {
    pub data: Vec<u8>,
    pub src: String,
}

/// The one thing the loop must do next.
#[derive(Debug)]
pub enum Event {
    /// Put these bytes on the wire as one datagram, then record the send.
    SendMsg(Vec<u8>),
    /// The queue is closed and empty: exit the loop normally.
    Shutdown,
    /// Decode this datagram and, if it decodes, append it to the transcript.
    Deliver(Datagram),
}

/// Picks the next event from what one poll of each source found, outbound
/// side first: whenever the outbound poll found anything — a message or
/// closure — the inbound datagram, ready or not, waits for a later
/// iteration. Only when the outbound side is idle is the inbound datagram
/// taken, and only when both are idle is there nothing to do.
pub fn select_event(outbound: Polled, inbound: Option<Datagram>) -> (e: Option<Event>)
    ensures
        outbound matches Polled::Msg(m) ==> (e matches Some(ev) && ev matches Event::SendMsg(d)
            && d@ == m@),
        outbound is Disconnected ==> (e matches Some(ev) && ev is Shutdown),
        outbound is Empty ==> (inbound matches Some(g) ==> (e matches Some(ev) && ev matches
            Event::Deliver(d) && d.data@ == g.data@ && d.src@ == g.src@)),
        outbound is Empty && inbound is None ==> e is None,
{
    match outbound {
        Polled::Msg(m) => Some(Event::SendMsg(m)),
        Polled::Disconnected => Some(Event::Shutdown),
        Polled::Empty => match inbound {
            Some(d) => Some(Event::Deliver(d)),
            None => None,
        },
    }
}

} // verus!
