//! The process-wide message buses and the packets they carry.
//!
//! A bus is a single-consumer, multi-producer channel.  Producers may
//! publish at any time; the one consumer handle can be claimed exactly once,
//! and a second claim fails loudly instead of silently handing out a
//! duplicate.  Delivery is in publish order: `receive` always hands out the
//! oldest pending message.  The unverified shell shares a bus between
//! threads by wrapping it in a lock; nothing here depends on that.

use vstd::prelude::*;

use crate::error::GenericError;
use crate::error::GenericResult;
use crate::error::explained;

verus! {

/// Severity of a message on the output bus.
#[derive(Clone, Copy, Debug, PartialEq, Eq, Structural)]
pub enum OutputMessageType {
    Error,
    Warning,
    Info,
    Debug,
    Raw,
}

/// One value on the output bus: a leveled text message, or the sentinel that
/// tells the sole consumer to exit after draining everything queued before it.
#[derive(Clone, Debug)]
pub enum OutputPacket {
    Message { level: OutputMessageType, message: String },
    Terminate,
}

/// A single-consumer, multi-producer message channel.
pub struct Bus<T> {
    queue: Vec<T>,
    consumer_claimed: bool,
}

impl<T> Bus<T> {
    /// The messages published and not yet received, oldest first.
    pub closed spec fn pending(&self) -> Seq<T> {
        self.queue@
    }

    /// Whether the one consumer handle has been claimed already.
    pub closed spec fn is_consumer_claimed(&self) -> bool {
        self.consumer_claimed
    }

    /// A fresh bus: nothing pending, consumer handle still available.
    pub fn new() -> (r: Bus<T>)
        ensures
            r.pending() == Seq::<T>::empty(),
            !r.is_consumer_claimed(),
    {
        Bus { queue: Vec::new(), consumer_claimed: false }
    }

    /// Publishes one message.  Always succeeds and appends the message after
    /// everything already pending, so messages of a single producer are
    /// delivered in the order that producer sent them.
    pub fn publish(&mut self, message: T)
        ensures
            final(self).pending() == old(self).pending().push(message),
            final(self).is_consumer_claimed() == old(self).is_consumer_claimed(),
    {
        self.queue.push(message);
    }

    /// Whether the one consumer handle has been claimed.
    pub fn consumer_claimed(&self) -> (r: bool)
        ensures
            r == self.is_consumer_claimed(),
    {
        self.consumer_claimed
    }

    /// Claims the one consumer handle.  Succeeds exactly once per bus: a
    /// second claim is a programming-contract violation and is answered with
    /// an error, never with a silent duplicate.
    pub fn claim_consumer(&mut self) -> (r: GenericResult<()>)
        ensures
            final(self).pending() == old(self).pending(),
            final(self).is_consumer_claimed(),
            !old(self).is_consumer_claimed() <==> r is Ok,
            old(self).is_consumer_claimed() ==> (r matches Err(e)
                && e matches GenericError::ExplainedError(_)),
    {
        if self.consumer_claimed {
            Err(explained("the bus consumer has already been claimed"))
        } else {
            self.consumer_claimed = true;
            Ok(())
        }
    }

    /// Hands the claimed consumer the oldest pending message, or `None` when
    /// nothing is pending.
    pub fn receive(&mut self) -> (r: Option<T>)
        requires
            old(self).is_consumer_claimed(),
    ensures
            final(self).is_consumer_claimed(),
            old(self).pending().len() == 0 ==> r is None
                && final(self).pending() == old(self).pending(),
            old(self).pending().len() > 0 ==> r == Some(old(self).pending()[0])
                && final(self).pending() == old(self).pending().drop_first(),
    {
        if self.queue.len() == 0 {
            None
        } else {
            let front = self.queue.remove(0);
            proof {
                assert(old(self).pending().remove(0) =~= old(self).pending().drop_first());
            }
            Some(front)
        }
    }
}

/// What is pending after the consumer has received `n` messages from a bus
/// whose queue held `q`: each `receive` removes the front, so `n` receives
/// drop the first `n` messages.
pub open spec fn pending_after<T>(q: Seq<T>, n: int) -> Seq<T> {
    q.skip(n)
}

/// The message the consumer's `n`-th receive (counting from 0) hands out is
/// the one at position `n` of the pending queue: `receive` returns the
/// front of what is left, and what is left then loses that front.
pub proof fn lemma_nth_delivery<T>(q: Seq<T>, n: int)
    requires
        0 <= n < q.len(),
    ensures
        pending_after(q, n)[0] == q[n],
        pending_after(q, n).drop_first() == pending_after(q, n + 1),
{
    assert(q.skip(n).drop_first() =~= q.skip(n + 1));
}

/// Delivery is first-in, first-out for each single producer: three messages
/// published in the order `m1`, `m2`, `m3` sit in the queue at strictly
/// increasing positions `n`, `n + 1`, `n + 2`, and the receives numbered
/// `n`, `n + 1`, `n + 2` hand out exactly those positions — so the consumer
/// sees `m1` before `m2` before `m3`, whatever was pending already.
pub proof fn lemma_single_producer_fifo<T>(pending: Seq<T>, m1: T, m2: T, m3: T)
    ensures
        ({
            let q = pending.push(m1).push(m2).push(m3);
            let n = pending.len() as int;
            &&& q.len() == n + 3
            &&& pending_after(q, n)[0] == m1
            &&& pending_after(q, n + 1)[0] == m2
            &&& pending_after(q, n + 2)[0] == m3
        }),
{
    let q = pending.push(m1).push(m2).push(m3);
    let n = pending.len() as int;
    lemma_nth_delivery(q, n);
    lemma_nth_delivery(q, n + 1);
    lemma_nth_delivery(q, n + 2);
}

} // verus!
