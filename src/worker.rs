//! The state machine of one worker: it polls the job queue, runs at most one
//! job per cycle, then checks the worker-error channel, until a `Terminate`
//! message or a fatal signal stops it.
use crate::signal::{ErrorType, Message};
use vstd::prelude::*;

verus! {

#[derive(Clone, Copy, PartialEq, Eq, Structural, Debug)]
pub enum WorkerState {
    Polling,
    Executing,
    Terminated,
}

/// The state a polling worker moves to on a message from the job queue.
pub open spec fn receive_state<J>(msg: Message<J>) -> WorkerState {
    match msg {
        Message::NewMessage(_) => WorkerState::Executing,
        Message::Terminate => WorkerState::Terminated,
        Message::Nothing(_) => WorkerState::Polling,
    }
}

/// The job a message carries, if any.
pub open spec fn job_of<J>(msg: Message<J>) -> Option<J> {
    match msg {
        Message::NewMessage(j) => Some(j),
        _ => None,
    }
}

/// The state a polling worker moves to on a signal from the worker-error
/// channel.
pub open spec fn observe_state(err: ErrorType) -> WorkerState {
    if err is Fatal {
        WorkerState::Terminated
    } else {
        WorkerState::Polling
    }
}

/// A worker, known by a stable id that only serves diagnostics.
#[derive(Clone, Copy, Debug)]
pub struct Worker {
    pub id: usize,
    pub state: WorkerState,
}

impl Worker {
    pub fn new(id: usize) -> (r: Worker)
        ensures
            r.id == id,
            r.state == WorkerState::Polling,
    {
        Worker { id, state: WorkerState::Polling }
    }

    /// Takes a message polled from the job queue; hands back the job to run.
    pub fn receive<J>(&mut self, msg: Message<J>) -> (r: Option<J>)
        requires
            old(self).state == WorkerState::Polling,
        ensures
            final(self).id == old(self).id,
            final(self).state == receive_state(msg),
            r == job_of(msg),
    {
        match msg {
            Message::NewMessage(job) => {
                self.state = WorkerState::Executing;
                Some(job)
            },
            Message::Terminate => {
                self.state = WorkerState::Terminated;
                None
            },
            Message::Nothing(_) => None,
        }
    }

    /// The job handed out by `receive` has run to completion.
    pub fn finish_job(&mut self)
        requires
            old(self).state == WorkerState::Executing,
        ensures
            final(self).id == old(self).id,
            final(self).state == WorkerState::Polling,
    {
        self.state = WorkerState::Polling;
    }

    /// Takes a signal polled from the worker-error channel.
    pub fn observe(&mut self, err: &ErrorType)
        requires
            old(self).state == WorkerState::Polling,
        ensures
            final(self).id == old(self).id,
            final(self).state == observe_state(*err),
    {
        if err.is_fatal() {
            self.state = WorkerState::Terminated;
        }
    }

    pub fn is_terminated(&self) -> (r: bool)
        ensures
            r == (self.state == WorkerState::Terminated),
    {
        self.state == WorkerState::Terminated
    }
}

/// One if a worker in state `s` is still running, else zero.
pub open spec fn live_weight(s: WorkerState) -> int {
    if s == WorkerState::Terminated {
        0
    } else {
        1
    }
}

/// How many of the states are not `Terminated`.
pub open spec fn live_count(s: Seq<WorkerState>) -> int
    decreases s.len(),
{
    if s.len() == 0 {
        0
    } else {
        live_count(s.drop_last()) + live_weight(s.last())
    }
}

pub proof fn lemma_live_count_bounds(s: Seq<WorkerState>)
    ensures
        0 <= live_count(s) <= s.len(),
    decreases s.len(),
{
    if s.len() > 0 {
        lemma_live_count_bounds(s.drop_last());
    }
}

pub proof fn lemma_live_count_update(s: Seq<WorkerState>, i: int, v: WorkerState)
    requires
        0 <= i < s.len(),
    ensures
        live_count(s.update(i, v)) == live_count(s) - live_weight(s[i]) + live_weight(v),
    decreases s.len(),
{
    if i == s.len() - 1 {
        assert(s.update(i, v).drop_last() =~= s.drop_last());
    } else {
        lemma_live_count_update(s.drop_last(), i, v);
        assert(s.update(i, v).drop_last() =~= s.drop_last().update(i, v));
    }
}

} // verus!
