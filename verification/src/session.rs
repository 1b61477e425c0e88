//! The whole system, composed: the outbound queue and the engine, with the
//! shutdown handshake between them. Producers enqueue and eventually drop
//! their handles; the engine drains what is pending and, on observing the
//! queue closed and empty, stops — exactly once, with nothing enqueued
//! before closure lost, reordered or duplicated.

use vstd::prelude::*;
use crate::chat_log::line_of;
use crate::engine::{Engine, InboundOutcome, IoError};
use crate::queue::{ClosedError, OutboundQueue, Polled};
use vstd::utf8::{decode_utf8, valid_utf8};

verus! {

/// One queue, one engine, and the invariant that ties them together.
pub struct Session {
    queue: OutboundQueue,
    engine: Engine,
}

impl Session {
    /// The coupling invariant: what the engine has sent is exactly what the
    /// queue has handed it; the consumer end lives exactly while the engine
    /// runs; a normal stop happens only with the queue closed and empty; and
    /// a recorded fault belongs to a stopped engine.
    pub closed spec fn wf(&self) -> bool {
        &&& self.engine.sent_view() == self.queue.taken_view()
        &&& (self.queue.receiver_live() <==> !self.engine.is_stopped())
        &&& (self.engine.is_stopped() && self.engine.fault_of() is None
            ==> self.queue.pending().len() == 0 && self.queue.is_closed())
        &&& (self.engine.fault_of() is Some ==> self.engine.is_stopped())
    }

    /// Messages enqueued but not yet taken by the engine, oldest first.
    pub closed spec fn pending(&self) -> Seq<Seq<u8>> {
        self.queue.pending()
    }

    /// Every message ever enqueued, in enqueue order.
    pub closed spec fn history(&self) -> Seq<Seq<u8>> {
        self.queue.history()
    }

    /// Every datagram the engine has handed to the socket, in send order.
    pub closed spec fn sent(&self) -> Seq<Seq<u8>> {
        self.engine.sent_view()
    }

    /// Live producer handles.
    pub closed spec fn producer_count(&self) -> nat {
        self.queue.producer_count()
    }

    /// Closed exactly when no producer handle remains.
    pub closed spec fn is_closed(&self) -> bool {
        self.queue.is_closed()
    }

    /// True once the engine's loop has exited.
    pub closed spec fn is_stopped(&self) -> bool {
        self.engine.is_stopped()
    }

    /// The failure that ended the loop, if it did not end normally.
    pub closed spec fn fault(&self) -> Option<IoError> {
        self.engine.fault_of()
    }

    /// The published transcript.
    pub closed spec fn log_view(&self) -> Seq<char> {
        self.engine.log_view()
    }

    /// Startup: a fresh queue with one producer handle and a running engine.
    pub fn start() -> (s: Session)
        ensures
            s.wf(),
            !s.is_stopped(),
            s.fault() is None,
            s.producer_count() == 1,
            s.pending() == Seq::<Seq<u8>>::empty(),
            s.sent() == Seq::<Seq<u8>>::empty(),
            s.history() == Seq::<Seq<u8>>::empty(),
            s.log_view() == Seq::<char>::empty(),
    {
        let s = Session { queue: OutboundQueue::new(), engine: Engine::new() };
        proof {
            assert(s.history() =~= Seq::<Seq<u8>>::empty());
        }
        s
    }

    /// Producer interface: never blocks, and fails exactly when the engine
    /// has already terminated — then nothing changes.
    pub fn enqueue(&mut self, msg: Vec<u8>) -> (r: Result<(), ClosedError>)
        requires
            old(self).wf(),
            old(self).producer_count() >= 1,
        ensures
            final(self).wf(),
            r is Ok <==> !old(self).is_stopped(),
            !old(self).is_stopped() ==> final(self).pending() == old(self).pending().push(msg@)
                && final(self).history() == old(self).history().push(msg@),
            old(self).is_stopped() ==> final(self).pending() == old(self).pending()
                && final(self).history() == old(self).history(),
            final(self).sent() == old(self).sent(),
            final(self).log_view() == old(self).log_view(),
            final(self).producer_count() == old(self).producer_count(),
            final(self).is_stopped() == old(self).is_stopped(),
            final(self).fault() == old(self).fault(),
    {
        let r = self.queue.enqueue(msg);
        proof {
            if !old(self).is_stopped() {
                assert(self.history() =~= old(self).history().push(msg@));
            }
        }
        r
    }

    /// One more producer handle.
    pub fn clone_producer(&mut self)
        requires
            old(self).wf(),
            old(self).producer_count() >= 1,
            old(self).producer_count() < usize::MAX,
        ensures
            final(self).wf(),
            final(self).producer_count() == old(self).producer_count() + 1,
            final(self).pending() == old(self).pending(),
            final(self).history() == old(self).history(),
            final(self).sent() == old(self).sent(),
            final(self).log_view() == old(self).log_view(),
            final(self).is_stopped() == old(self).is_stopped(),
            final(self).fault() == old(self).fault(),
    {
        self.queue.clone_producer()
    }

    /// Drops one producer handle. However many clones exist, closure is
    /// signalled exactly once: the queue becomes closed exactly when the
    /// dropped handle was the last, and once closed no handle remains.
    pub fn drop_producer(&mut self)
        requires
            old(self).wf(),
            old(self).producer_count() >= 1,
        ensures
            final(self).wf(),
            final(self).producer_count() == old(self).producer_count() - 1,
            final(self).is_closed() <==> old(self).producer_count() == 1,
            final(self).pending() == old(self).pending(),
            final(self).history() == old(self).history(),
            final(self).sent() == old(self).sent(),
            final(self).log_view() == old(self).log_view(),
            final(self).is_stopped() == old(self).is_stopped(),
            final(self).fault() == old(self).fault(),
    {
        self.queue.drop_producer()
    }

    /// One full priority-1 service pass of the multiplex loop: takes every
    /// message now pending, in order, hands each to the wire exactly once,
    /// and — exactly when the queue is closed — observes the termination
    /// signal and stops, normally. The returned vector is the wire traffic
    /// of this pass, in send order.
    pub fn pump_outbound(&mut self) -> (wire: Vec<Vec<u8>>)
        requires
            old(self).wf(),
            !old(self).is_stopped(),
        ensures
            final(self).wf(),
            wire.deep_view() == old(self).pending(),
            final(self).sent() == old(self).sent() + old(self).pending(),
            final(self).pending() == Seq::<Seq<u8>>::empty(),
            final(self).history() == old(self).history(),
            final(self).is_stopped() <==> old(self).is_closed(),
            final(self).fault() == old(self).fault(),
            final(self).log_view() == old(self).log_view(),
            final(self).producer_count() == old(self).producer_count(),
    {
        let ghost orig = *old(self);
        let mut wire: Vec<Vec<u8>> = Vec::new();
        proof {
            assert(wire.deep_view() =~= Seq::<Seq<u8>>::empty());
        }
        #[verifier::loop_isolation(false)]
        loop
            invariant
                self.wf(),
                !self.engine.is_stopped(),
                self.queue.receiver_live(),
                self.queue.producer_count() == orig.queue.producer_count(),
                self.engine.fault_of() == orig.engine.fault_of(),
                self.engine.log_view() == orig.engine.log_view(),
                orig.queue.pending() == wire.deep_view() + self.queue.pending(),
                self.engine.sent_view() == orig.engine.sent_view() + wire.deep_view(),
                self.queue.history() == orig.queue.history(),
            decreases self.queue.pending().len(),
        {
            match self.queue.try_recv() {
                Polled::Msg(m) => {
                    let ghost m_view = m@;
                    let ghost wire_prev = wire.deep_view();
                    let d = self.engine.on_outbound(m);
                    wire.push(d);
                    proof {
                        assert(wire.deep_view() =~~= wire_prev.push(m_view));
                        assert(orig.queue.pending() =~= wire.deep_view() + self.queue.pending());
                        assert(self.engine.sent_view() =~= orig.engine.sent_view()
                            + wire.deep_view());
                    }
                },
                Polled::Disconnected => {
                    self.engine.on_queue_closed();
                    self.queue.drop_receiver();
                    proof {
                        assert(wire.deep_view() =~= orig.queue.pending());
                    }
                    return wire;
                },
                Polled::Empty => {
                    proof {
                        assert(wire.deep_view() =~= orig.queue.pending());
                    }
                    return wire;
                },
            }
        }
    }

    /// Priority 2: one inbound datagram, delivered to the engine. Valid
    /// UTF-8 appends exactly one rendered line; anything else is discarded
    /// and the transcript is unchanged.
    pub fn on_inbound(&mut self, data: &[u8], src: &str) -> (out: InboundOutcome)
        requires
            old(self).wf(),
            !old(self).is_stopped(),
        ensures
            final(self).wf(),
            valid_utf8(data@) ==> out == InboundOutcome::Appended && final(self).log_view()
                == old(self).log_view() + line_of(src@, decode_utf8(data@)),
            !valid_utf8(data@) ==> out == InboundOutcome::Discarded && final(self).log_view()
                == old(self).log_view(),
            old(self).log_view().is_prefix_of(final(self).log_view()),
            !final(self).is_stopped(),
            final(self).sent() == old(self).sent(),
            final(self).pending() == old(self).pending(),
            final(self).history() == old(self).history(),
            final(self).producer_count() == old(self).producer_count(),
            final(self).fault() == old(self).fault(),
    {
        self.engine.on_inbound(data, src)
    }

    /// A send on the socket failed: the loop exits with the failure as its
    /// terminal result, and the consumer end disappears — producers that
    /// still hold handles see `ClosedError` from then on.
    pub fn on_send_error(&mut self)
        requires
            old(self).wf(),
            !old(self).is_stopped(),
        ensures
            final(self).wf(),
            final(self).is_stopped(),
            final(self).fault() == Some(IoError::Send),
            final(self).pending() == old(self).pending(),
            final(self).sent() == old(self).sent(),
            final(self).history() == old(self).history(),
            final(self).log_view() == old(self).log_view(),
            final(self).producer_count() == old(self).producer_count(),
    {
        self.engine.on_send_error();
        self.queue.drop_receiver();
    }

    /// A receive failed with something other than "would block": fatal in
    /// the same way.
    pub fn on_recv_error(&mut self)
        requires
            old(self).wf(),
            !old(self).is_stopped(),
        ensures
            final(self).wf(),
            final(self).is_stopped(),
            final(self).fault() == Some(IoError::Recv),
            final(self).pending() == old(self).pending(),
            final(self).sent() == old(self).sent(),
            final(self).history() == old(self).history(),
            final(self).log_view() == old(self).log_view(),
            final(self).producer_count() == old(self).producer_count(),
    {
        self.engine.on_recv_error();
        self.queue.drop_receiver();
    }

    /// Consumer interface: the full accumulated transcript so far.
    pub fn current_log(&self) -> (s: String)
        ensures
            s@ == self.log_view(),
    {
        self.engine.current_log()
    }

    /// The terminal result, as `join()` reports it: `Ok` exactly when the
    /// loop ended normally.
    pub fn outcome(&self) -> (r: Result<(), IoError>)
        requires
            self.is_stopped(),
        ensures
            self.fault() is None ==> r is Ok,
            self.fault() matches Some(f) ==> r == Err::<(), IoError>(f),
    {
        self.engine.outcome()
    }
}

/// No message enqueued before closure is lost, reordered or duplicated: once
/// the engine has stopped normally, the datagrams it handed to the socket
/// are exactly the messages ever enqueued, in enqueue order, each exactly
/// once.
pub proof fn lemma_clean_shutdown_sent_everything(s: &Session)
    requires
        s.wf(),
        s.is_stopped(),
        s.fault() is None,
    ensures
        s.sent() == s.history(),
{
    assert(s.sent() =~= s.history());
}

} // verus!
