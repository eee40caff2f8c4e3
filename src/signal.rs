//! What travels on the pool's channels: error signals between the workers,
//! the supervisor and the operator prompt, and messages on the job queue.
use crate::channel::Channel;
use vstd::prelude::*;

verus! {

/// A signal on one of the error channels. `Nothing` is what a poll of an
/// empty channel yields; nobody sends it.
pub enum ErrorType {
    NonFatal(String),
    Fatal(String),
    Nothing(String),
}

impl ErrorType {
    pub fn is_fatal(&self) -> (r: bool)
        ensures
            r == (*self is Fatal),
    {
        match self {
            ErrorType::Fatal(_) => true,
            _ => false,
        }
    }
}

/// A message on the job queue. `Nothing` is what a poll of an empty queue
/// yields; nobody sends it.
pub enum Message<J> {
    Terminate,
    NewMessage(J),
    Nothing(String),
}

/// The pending values of `c` once its oldest one, if any, has been taken.
pub open spec fn after_poll<T>(c: Channel<T>) -> Seq<T> {
    if c.pending().len() > 0 {
        c.pending().drop_first()
    } else {
        c.pending()
    }
}

/// What a poll of `c` yields, given the placeholder for an empty channel.
pub open spec fn poll_result<T>(c: Channel<T>, empty: T) -> T {
    if c.pending().len() > 0 {
        c.pending()[0]
    } else {
        empty
    }
}

/// One poll of a channel took its oldest value, if it had one.
pub open spec fn polled<T>(old_c: Channel<T>, new_c: Channel<T>) -> bool {
    &&& new_c.wf()
    &&& new_c.pending() == after_poll(old_c)
    &&& new_c.receivers() == old_c.receivers()
}

/// Takes the oldest signal of `c` without waiting; `Nothing("Nothing")` when
/// there is none.
pub fn poll_signal(c: &mut Channel<ErrorType>) -> (r: ErrorType)
    requires
        old(c).wf(),
    ensures
        polled(*old(c), *final(c)),
        final(c).sent() == old(c).sent(),
        old(c).pending().len() > 0 ==> r == old(c).pending()[0],
        old(c).pending().len() == 0 ==> r is Nothing && r->Nothing_0@ == "Nothing"@,
{
    match c.try_recv() {
        Some(e) => e,
        None => ErrorType::Nothing(String::from_str("Nothing")),
    }
}

/// Takes the oldest message of `c` without waiting; `Nothing("Nothing")`
/// when there is none.
pub fn poll_message<J>(c: &mut Channel<Message<J>>) -> (r: Message<J>)
    requires
        old(c).wf(),
    ensures
        polled(*old(c), *final(c)),
        final(c).sent() == old(c).sent(),
        old(c).pending().len() > 0 ==> r == old(c).pending()[0] && final(c).delivered() == old(
            c,
        ).delivered().push(r),
        old(c).pending().len() == 0 ==> r is Nothing && r->Nothing_0@ == "Nothing"@
            && final(c).delivered() == old(c).delivered(),
{
    match c.try_recv() {
        Some(m) => m,
        None => Message::Nothing(String::from_str("Nothing")),
    }
}

} // verus!
