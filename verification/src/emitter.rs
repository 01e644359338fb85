//! The synthetic input emitter: the sending half of the queue that the
//! OS input-injection task consumes.
//!
//! The emitter's view is the trace of events the queue accepted through this
//! handle, oldest first. Delivery of a multi-event combo must not interleave
//! with another action's events, so every send takes the emitter by `&mut`:
//! holding the exclusive borrow for the whole sequence is what serializes
//! concurrent callers.

use vstd::prelude::*;

use crate::events::InputEvent;
use crate::outcome::ExecError;

verus! {

/// The sending half of tokio's multiple-producer, single-consumer queue
/// with unbounded capacity, so that a send never waits on a slow consumer.
#[verifier::external_type_specification]
#[verifier::external_body]
#[verifier::reject_recursive_types(T)]
pub struct ExUnboundedSender<T>(tokio::sync::mpsc::UnboundedSender<T>);

/// A handle on the synthetic-input queue, together with the trace of the
/// events it has delivered.
pub struct Emitter {
    tx: tokio::sync::mpsc::UnboundedSender<InputEvent>,
    trace: Ghost<Seq<InputEvent>>,
}

impl View for Emitter {
    type V = Seq<InputEvent>;

    /// The events the queue accepted through this handle, oldest first.
    closed spec fn view(&self) -> Seq<InputEvent> {
        self.trace@
    }
}

impl Emitter {
    /// Wrap the sending half of the input-injection queue; nothing has been
    /// delivered through the new handle yet.
    pub fn new(tx: tokio::sync::mpsc::UnboundedSender<InputEvent>) -> (r: Emitter)
        ensures
            r@ == Seq::<InputEvent>::empty(),
    {
        Emitter { tx, trace: Ghost(Seq::empty()) }
    }

    /// Relies on tokio's `UnboundedSender::send`: the queue has infinite
    /// capacity, so the call never waits; it enqueues the message behind
    /// this handle's earlier sends, and fails exactly when the receive half
    /// of the channel was closed or dropped, in which case nothing is
    /// enqueued (the error hands the message back).
    #[verifier::external_body]
    fn push_to_queue(&mut self, event: InputEvent) -> (accepted: bool)
        ensures
            accepted ==> final(self)@ == old(self)@.push(event),
            !accepted ==> final(self)@ == old(self)@,
    {
        self.tx.send(event).is_ok()
    }

    /// Deliver one event, failing when the emitter's consumer has
    /// terminated.
    pub fn send(&mut self, event: InputEvent) -> (r: Result<(), ExecError>)
        ensures
            r matches Ok(()) ==> final(self)@ == old(self)@.push(event),
            r matches Err(e) ==> final(self)@ == old(self)@ && e == ExecError::ChannelClosed,
    {
        if self.push_to_queue(event) {
            Ok(())
        } else {
            Err(ExecError::ChannelClosed)
        }
    }

    /// Deliver `events` strictly in order, awaiting each before the next,
    /// and stop at the first send the queue refuses: on failure, nothing
    /// beyond the already-delivered prefix of the sequence went out.
    pub fn send_all(&mut self, events: &Vec<InputEvent>) -> (r: Result<(), ExecError>)
        ensures
            r matches Ok(()) ==> final(self)@ == old(self)@ + events@,
            r matches Err(e) ==> e == ExecError::ChannelClosed
                && exists|k: int|
                    0 <= k < events@.len() && final(self)@ == old(self)@ + events@.subrange(0, k),
    {
        let ghost init: Seq<InputEvent> = self@;
        let mut i: usize = 0;
        while i < events.len()
            invariant
                0 <= i <= events@.len(),
                init == old(self)@,
                self@ == init + events@.subrange(0, i as int),
            decreases events@.len() - i,
        {
            match self.send(events[i]) {
                Ok(()) => {
                    proof {
                        assert(self@ =~= init + events@.subrange(0, i as int + 1));
                    }
                    i = i + 1;
                }
                Err(e) => {
                    proof {
                        assert(exists|k: int|
                            0 <= k < events@.len() && self@ == old(self)@ + events@.subrange(
                                0,
                                k,
                            )) by {
                            assert(self@ == old(self)@ + events@.subrange(0, i as int));
                        }
                    }
                    return Err(e);
                }
            }
        }
        proof {
            assert(events@.subrange(0, events@.len() as int) =~= events@);
        }
        Ok(())
    }
}

} // verus!
