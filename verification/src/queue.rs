//! The outbound queue: an ordered, unbounded hand-off of opaque byte messages
//! from any number of producer handles to the single engine consumer.
//! Enqueueing never blocks a producer. Closure is the sole termination signal
//! for the engine, and it is never sent explicitly: the queue is closed
//! exactly when the last producer handle is dropped — dropping any earlier
//! handle leaves it open, so however many clones exist, closure happens
//! exactly once.

use vstd::prelude::*;

verus! {

/// Returned to a producer that enqueues after the engine side is gone.
#[derive(Clone, Copy, Debug, PartialEq, Eq, Structural)]
pub struct ClosedError;

/// What a non-blocking poll of the consumer end found.
#[derive(Debug)]
pub enum Polled {
    /// The oldest pending message, removed from the queue.
    Msg(Vec<u8>),
    /// Nothing pending, but producer handles remain: wait.
    Empty,
    /// Nothing pending and every producer handle is gone: terminate.
    Disconnected,
}

/// The queue itself: pending messages in enqueue order, a count of live
/// producer handles, and whether the consumer end still exists.
pub struct OutboundQueue {
    items: Vec<Vec<u8>>,
    producers: usize,
    receiver_alive: bool,
    taken: Ghost<Seq<Seq<u8>>>,
}

impl OutboundQueue {
    /// The messages now pending, oldest first.
    pub closed spec fn pending(&self) -> Seq<Seq<u8>> {
        self.items.deep_view()
    }

    /// How many producer handles are live.
    pub closed spec fn producer_count(&self) -> nat {
        self.producers as nat
    }

    /// Closed exactly when no producer handle remains.
    pub open spec fn is_closed(&self) -> bool {
        self.producer_count() == 0
    }

    /// Whether the consumer (engine) end still exists.
    pub closed spec fn receiver_live(&self) -> bool {
        self.receiver_alive
    }

    /// The messages already handed to the consumer, oldest first.
    pub closed spec fn taken_view(&self) -> Seq<Seq<u8>> {
        self.taken@
    }

    /// Every message ever enqueued, in enqueue order: those already handed
    /// to the consumer followed by those still pending.
    pub open spec fn history(&self) -> Seq<Seq<u8>> {
        self.taken_view() + self.pending()
    }

    /// A fresh queue: empty, one producer handle, consumer present.
    pub fn new() -> (q: OutboundQueue)
        ensures
            q.pending() == Seq::<Seq<u8>>::empty(),
            q.producer_count() == 1,
            q.receiver_live(),
            q.taken_view() == Seq::<Seq<u8>>::empty(),
    {
        let q = OutboundQueue {
            items: Vec::new(),
            producers: 1,
            receiver_alive: true,
            taken: Ghost(Seq::empty()),
        };
        proof {
            assert(q.pending() =~= Seq::<Seq<u8>>::empty());
        }
        q
    }

    /// Producer interface: appends one message. Never blocks; fails exactly
    /// when the engine side has already terminated, and then changes nothing.
    pub fn enqueue(&mut self, msg: Vec<u8>) -> (r: Result<(), ClosedError>)
        requires
            old(self).producer_count() >= 1,
        ensures
            old(self).receiver_live() ==> r is Ok
                && final(self).pending() == old(self).pending().push(msg@),
            !old(self).receiver_live() ==> r is Err
                && final(self).pending() == old(self).pending(),
            final(self).producer_count() == old(self).producer_count(),
            final(self).receiver_live() == old(self).receiver_live(),
            final(self).taken_view() == old(self).taken_view(),
    {
        if self.receiver_alive {
            let ghost msg_snap = msg;
            self.items.push(msg);
            proof {
                assert(msg_snap.deep_view() =~= msg_snap@);
                assert(self.pending() =~~= old(self).pending().push(msg_snap@));
            }
            Ok(())
        } else {
            Err(ClosedError)
        }
    }

    /// Clones a producer handle: one more live handle, nothing else changes.
    pub fn clone_producer(&mut self)
        requires
            old(self).producer_count() >= 1,
            old(self).producer_count() < usize::MAX,
        ensures
            final(self).producer_count() == old(self).producer_count() + 1,
            final(self).pending() == old(self).pending(),
            final(self).receiver_live() == old(self).receiver_live(),
            final(self).taken_view() == old(self).taken_view(),
    {
        self.producers = self.producers + 1;
    }

    /// Drops one producer handle. The queue becomes closed exactly when the
    /// dropped handle was the last one: no earlier drop closes it, and once
    /// it is closed no handle remains to drop it again.
    pub fn drop_producer(&mut self)
        requires
            old(self).producer_count() >= 1,
        ensures
            final(self).producer_count() == old(self).producer_count() - 1,
            final(self).is_closed() <==> old(self).producer_count() == 1,
            final(self).pending() == old(self).pending(),
            final(self).receiver_live() == old(self).receiver_live(),
            final(self).taken_view() == old(self).taken_view(),
    {
        self.producers = self.producers - 1;
    }

    /// Consumer interface: a non-blocking poll. Yields the oldest pending
    /// message if there is one; otherwise reports `Disconnected` exactly when
    /// the queue is closed, which is the engine's sole termination signal.
    /// The history — everything ever enqueued, in order — never changes here.
    pub fn try_recv(&mut self) -> (r: Polled)
        requires
            old(self).receiver_live(),
        ensures
            old(self).pending().len() > 0 ==> (r matches Polled::Msg(m)
                && m@ == old(self).pending()[0]
                && final(self).pending() == old(self).pending().drop_first()
                && final(self).taken_view() == old(self).taken_view().push(old(self).pending()[0])),
            old(self).pending().len() == 0 && old(self).is_closed() ==> r is Disconnected,
            old(self).pending().len() == 0 && !old(self).is_closed() ==> r is Empty,
            old(self).pending().len() == 0 ==> final(self).pending() == old(self).pending()
                && final(self).taken_view() == old(self).taken_view(),
            final(self).history() == old(self).history(),
            final(self).producer_count() == old(self).producer_count(),
            final(self).receiver_live() == old(self).receiver_live(),
    {
        if self.items.len() > 0 {
            let m = self.items.remove(0);
            proof {
                assert(m.deep_view() =~= m@);
                assert(old(self).pending()[0] == m@);
                self.taken@ = self.taken@.push(m@);
                assert(self.pending() =~~= old(self).pending().drop_first());
                assert(self.history() =~~= old(self).history());
            }
            Polled::Msg(m)
        } else {
            proof {
                assert(self.history() =~= old(self).history());
            }
            if self.producers == 0 {
                Polled::Disconnected
            } else {
                Polled::Empty
            }
        }
    }

    /// The engine side has terminated: later enqueues fail.
    pub fn drop_receiver(&mut self)
        ensures
            !final(self).receiver_live(),
            final(self).pending() == old(self).pending(),
            final(self).producer_count() == old(self).producer_count(),
            final(self).taken_view() == old(self).taken_view(),
    {
        self.receiver_alive = false;
    }
}

} // verus!
