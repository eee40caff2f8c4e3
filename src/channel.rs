//! A first-in first-out channel with competing consumers.
//!
//! Each value that is sent is handed to exactly one `try_recv`, in the order
//! of sending. A send fails, handing the value back, once every receiver has
//! detached. The channel keeps, as ghost state, everything it ever accepted
//! and everything it handed out, so that exactly-once delivery is a stated
//! invariant rather than a hope.
use std::collections::VecDeque;
use vstd::prelude::*;

verus! {

pub struct Channel<T> {
    items: VecDeque<T>,
    receivers: usize,
    accepted: Ghost<Seq<T>>,
    handed_out: Ghost<Seq<T>>,
}

impl<T> Channel<T> {
    /// The values sent and not yet received, oldest first.
    pub closed spec fn pending(&self) -> Seq<T> {
        self.items@
    }

    /// How many receivers are still attached.
    pub closed spec fn receivers(&self) -> nat {
        self.receivers as nat
    }

    /// Every value the channel ever accepted, in the order of sending.
    pub closed spec fn sent(&self) -> Seq<T> {
        self.accepted@
    }

    /// Every value handed out to a receiver, in the order of receiving.
    pub closed spec fn delivered(&self) -> Seq<T> {
        self.handed_out@
    }

    /// Every value accepted has either been delivered, once, or is pending.
    pub open spec fn wf(&self) -> bool {
        self.sent() == self.delivered() + self.pending()
    }

    /// A channel with `receivers` attached receivers and nothing in it.
    pub fn new(receivers: usize) -> (r: Self)
        ensures
            r.wf(),
            r.pending() == Seq::<T>::empty(),
            r.sent() == Seq::<T>::empty(),
            r.delivered() == Seq::<T>::empty(),
            r.receivers() == receivers,
    {
        let r = Channel {
            items: VecDeque::new(),
            receivers,
            accepted: Ghost(Seq::empty()),
            handed_out: Ghost(Seq::empty()),
        };
        assert(r.accepted@ =~= r.handed_out@ + r.items@);
        r
    }

    /// Queues `v` behind everything pending, or hands it back when no
    /// receiver is left.
    pub fn send(&mut self, v: T) -> (r: Result<(), T>)
        requires
            old(self).wf(),
        ensures
            final(self).wf(),
            final(self).receivers() == old(self).receivers(),
            final(self).delivered() == old(self).delivered(),
            old(self).receivers() == 0 ==> r == Err::<(), T>(v) && *final(self) == *old(self),
            old(self).receivers() > 0 ==> {
                &&& r is Ok
                &&& final(self).pending() == old(self).pending().push(v)
                &&& final(self).sent() == old(self).sent().push(v)
            },
    {
        if self.receivers == 0 {
            return Err(v);
        }
        proof {
            self.accepted@ = self.accepted@.push(v);
        }
        self.items.push_back(v);
        assert(self.accepted@ =~= self.handed_out@ + self.items@);
        Ok(())
    }

    /// Takes the oldest pending value, if there is one, without waiting.
    pub fn try_recv(&mut self) -> (r: Option<T>)
        requires
            old(self).wf(),
        ensures
            final(self).wf(),
            final(self).receivers() == old(self).receivers(),
            final(self).sent() == old(self).sent(),
            old(self).pending().len() == 0 ==> {
                &&& r is None
                &&& final(self).pending() == old(self).pending()
                &&& final(self).delivered() == old(self).delivered()
            },
            old(self).pending().len() > 0 ==> {
                &&& r == Some(old(self).pending()[0])
                &&& final(self).pending() == old(self).pending().drop_first()
                &&& final(self).delivered() == old(self).delivered().push(old(self).pending()[0])
            },
    {
        let r = self.items.pop_front();
        if let Some(v) = &r {
            proof {
                self.handed_out@ = self.handed_out@.push(*v);
            }
            assert(self.accepted@ =~= self.handed_out@ + self.items@);
        }
        r
    }

    /// Detaches one receiver.
    pub fn detach(&mut self)
        requires
            old(self).wf(),
            old(self).receivers() > 0,
        ensures
            final(self).wf(),
            final(self).receivers() == old(self).receivers() - 1,
            final(self).pending() == old(self).pending(),
            final(self).sent() == old(self).sent(),
            final(self).delivered() == old(self).delivered(),
    {
        self.receivers = self.receivers - 1;
    }

    /// The number of pending values.
    pub fn len(&self) -> (r: usize)
        ensures
            r == self.pending().len(),
    {
        self.items.len()
    }

    /// The number of attached receivers.
    pub fn receiver_count(&self) -> (r: usize)
        ensures
            r == self.receivers(),
    {
        self.receivers
    }
}

/// Values delivered by a well-formed channel are exactly the values sent,
/// in the order of sending, each handed out at most once; the rest wait.
pub proof fn lemma_delivered_once<T>(c: &Channel<T>)
    requires
        c.wf(),
    ensures
        c.delivered().len() <= c.sent().len(),
        forall|i: int| 0 <= i < c.delivered().len() ==> #[trigger] c.delivered()[i] == c.sent()[i],
        forall|i: int|
            0 <= i < c.pending().len() ==> #[trigger] c.pending()[i] == c.sent()[c.delivered().len() + i],
{
}

} // verus!
