//! The pool: a fixed set of workers fed from one job queue, a liveness flag
//! that turns true once and stays true, and the supervisor that handles
//! errors. Each method is one decision of the pool; the caller runs the
//! threads, sleeps between polls, runs the jobs handed out and writes the
//! log entries out.
use crate::channel::{lemma_delivered_once, Channel};
use crate::error_handler::{forwarded, front_fatal, ErrorHandler, LogEntry};
use crate::signal::{after_poll, poll_message, ErrorType, Message};
use crate::text::str_eq;
use crate::FnBox;
use crate::worker::{
    job_of, lemma_live_count_bounds, lemma_live_count_update, live_count, live_weight,
    observe_state, receive_state, Worker, WorkerState,
};
use vstd::prelude::*;

verus! {

/// A job as the server submits it: boxed work that runs once on a worker.
pub type Job = Box<dyn FnBox + Send + 'static>;

/// What became of a submitted job.
#[derive(Clone, Copy, PartialEq, Eq, Structural, Debug)]
pub enum Submission {
    /// It is on the queue.
    Queued,
    /// The pool is dead; the job was dropped.
    Rejected,
    /// No worker was left to take it; the pool is now dead.
    Failed,
}

/// The message recorded as fatal when the job queue refuses a message.
pub open spec fn send_failure_text() -> Seq<char> {
    "SendError { .. }"@
}

/// The message sent on the command channel when the operator asks to quit.
pub open spec fn quit_text() -> Seq<char> {
    "User asked to quit"@
}

/// `n` terminate messages.
pub open spec fn terminates<J>(n: nat) -> Seq<Message<J>> {
    Seq::new(n, |i: int| Message::Terminate)
}

/// The handler went from `old_h` to `new_h` by recording one fatal error
/// whose message is `text`.
pub open spec fn fatal_recorded(old_h: ErrorHandler, new_h: ErrorHandler, text: Seq<char>) -> bool {
    exists|m: String, t: String|
        m@ == text && #[trigger] ErrorHandler::recorded(old_h, new_h, ErrorType::Fatal(m), t)
}

/// The name given to what `str::trim` returns for a string.
pub uninterp spec fn trimmed(s: Seq<char>) -> Seq<char>;

/// Relies on str::trim: the slice without leading and trailing whitespace.
#[verifier::external_body]
fn trim(s: &str) -> (r: &str)
    ensures
        r@ == trimmed(s@),
{
    s.trim()
}

/// Whether an operator line, already trimmed, is the shutdown keyword.
pub fn is_shutdown_command(t: &str) -> (r: bool)
    ensures
        r == (t@ == "exit"@),
{
    str_eq(t, "exit")
}

/// The shared state of a pool of workers running jobs of type `J`.
pub struct ThreadPool<J> {
    workers: Vec<Worker>,
    jobs: Channel<Message<J>>,
    dead: bool,
    error: ErrorHandler,
}

impl<J> ThreadPool<J> {
    /// The state of each worker, by id.
    pub closed spec fn states(&self) -> Seq<WorkerState> {
        self.workers@.map_values(|w: Worker| w.state)
    }

    /// The job queue.
    pub closed spec fn jobs(&self) -> Channel<Message<J>> {
        self.jobs
    }

    /// The liveness flag: true once the pool is dead.
    pub closed spec fn dead(&self) -> bool {
        self.dead
    }

    /// The supervisor.
    pub closed spec fn handler(&self) -> ErrorHandler {
        self.error
    }

    /// The ids of the workers are their positions.
    pub closed spec fn ids_in_place(&self) -> bool {
        forall|i: int| 0 <= i < self.workers@.len() ==> #[trigger] self.workers@[i].id == i
    }

    /// The number of workers.
    pub open spec fn size(&self) -> nat {
        self.states().len()
    }

    /// How many workers have not terminated.
    pub open spec fn live_workers(&self) -> int {
        live_count(self.states())
    }

    /// The queue and the supervisor are well formed, the supervisor
    /// broadcasts to every worker, and the queue keeps one receiver per
    /// worker that has not terminated.
    pub open spec fn wf(&self) -> bool {
        &&& self.size() > 0
        &&& self.ids_in_place()
        &&& self.jobs().wf()
        &&& self.handler().wf()
        &&& self.handler().workers() == self.size()
        &&& self.jobs().receivers() == self.live_workers()
    }

    /// Everything but the job queue and the liveness flag is as before.
    pub open spec fn same_workers(&self, other: ThreadPool<J>) -> bool {
        &&& self.states() == other.states()
        &&& self.size() == other.size()
    }

    /// A pool of `num` polling workers with ids `0..num`.
    pub fn new(num: usize) -> (r: ThreadPool<J>)
        requires
            num > 0,
        ensures
            r.wf(),
            r.size() == num,
            r.live_workers() == num,
            forall|i: int| 0 <= i < num ==> #[trigger] r.states()[i] == WorkerState::Polling,
            !r.dead(),
            r.jobs().pending().len() == 0,
            r.jobs().sent().len() == 0,
            !r.handler().fanned_out(),
            r.handler().errors().pending().len() == 0,
            r.handler().commands().pending().len() == 0,
            r.handler().notices().pending().len() == 0,
            r.handler().log().len() == 0,
    {
        let mut workers: Vec<Worker> = Vec::new();
        let mut id: usize = 0;
        while id < num
            invariant
                id <= num,
                workers@.len() == id,
                forall|i: int| 0 <= i < id ==> #[trigger] workers@[i].id == i,
                forall|i: int| 0 <= i < id ==> #[trigger] workers@[i].state == WorkerState::Polling,
                live_count(workers@.map_values(|w: Worker| w.state)) == id,
            decreases num - id,
        {
            let ghost before = workers@;
            workers.push(Worker::new(id));
            assert(workers@.map_values(|w: Worker| w.state).drop_last() =~= before.map_values(
                |w: Worker| w.state,
            ));
            id = id + 1;
        }
        ThreadPool { workers, jobs: Channel::new(num), dead: false, error: ErrorHandler::new(num) }
    }

    /// `execute(f)` moved the pool from `old` to `new` and returned `r`: a
    /// dead pool drops the job and changes nothing; otherwise the job is
    /// queued, or, when no worker is left to take it, a fatal error is
    /// recorded and the pool dies.
    pub open spec fn execute_post(old: ThreadPool<J>, new: ThreadPool<J>, f: J, r: Submission) -> bool {
        &&& new.wf()
        &&& new.same_workers(old)
        &&& if old.dead() {
            r == Submission::Rejected && new == old
        } else if old.jobs().receivers() > 0 {
            &&& r == Submission::Queued
            &&& !new.dead()
            &&& new.jobs().pending() == old.jobs().pending().push(Message::NewMessage(f))
            &&& new.jobs().sent() == old.jobs().sent().push(Message::NewMessage(f))
            &&& new.jobs().delivered() == old.jobs().delivered()
            &&& new.handler() == old.handler()
        } else {
            &&& r == Submission::Failed
            &&& new.dead()
            &&& new.jobs() == old.jobs()
            &&& fatal_recorded(old.handler(), new.handler(), send_failure_text())
        }
    }

    /// Submits a job.
    pub fn execute(&mut self, f: J) -> (r: Submission)
        requires
            old(self).wf(),
        ensures
            Self::execute_post(*old(self), *final(self), f, r),
    {
        if self.dead {
            return Submission::Rejected;
        }
        match self.jobs.send(Message::NewMessage(f)) {
            Ok(()) => Submission::Queued,
            Err(_) => {
                self.record_send_failure();
                self.dead = true;
                Submission::Failed
            },
        }
    }

    fn record_send_failure(&mut self)
        requires
            old(self).wf(),
        ensures
            final(self).wf(),
            final(self).same_workers(*old(self)),
            final(self).jobs() == old(self).jobs(),
            final(self).dead() == old(self).dead(),
            fatal_recorded(old(self).handler(), final(self).handler(), send_failure_text()),
    {
        let m = String::from_str("SendError { .. }");
        let ghost gm = m;
        self.error.send(ErrorType::Fatal(m));
        let ghost t = choose|t: String|
            ErrorHandler::recorded(old(self).error, self.error, ErrorType::Fatal(gm), t);
        assert(ErrorHandler::recorded(old(self).error, self.error, ErrorType::Fatal(gm), t));
    }

    /// `kill()` moved the pool from `old` to `new` and returned `r`: on a
    /// dead pool it reports 1 and changes nothing; otherwise it queues one
    /// terminate message per worker and reports 0, or, when the queue
    /// refuses the first, records a fatal error and reports 2. Either way
    /// the pool is then dead.
    pub open spec fn kill_post(old: ThreadPool<J>, new: ThreadPool<J>, r: usize) -> bool {
        &&& new.wf()
        &&& new.same_workers(old)
        &&& new.dead()
        &&& if old.dead() {
            r == 1 && new == old
        } else if old.jobs().receivers() > 0 {
            &&& r == 0
            &&& new.jobs().pending() == old.jobs().pending() + terminates(old.size())
            &&& new.jobs().delivered() == old.jobs().delivered()
            &&& new.handler() == old.handler()
        } else {
            &&& r == 2
            &&& new.jobs() == old.jobs()
            &&& fatal_recorded(old.handler(), new.handler(), send_failure_text())
        }
    }

    /// Shuts the pool down: 0 when every worker was sent its terminate
    /// message, 1 when the pool was already dead, 2 when sending failed.
    /// The pool is dead on return, so no job submitted from here on is
    /// queued while the caller waits for the workers to finish.
    pub fn kill(&mut self) -> (r: usize)
        requires
            old(self).wf(),
        ensures
            Self::kill_post(*old(self), *final(self), r),
    {
        if self.dead {
            return 1;
        }
        let n = self.workers.len();
        let mut sent: usize = 0;
        let mut failed = false;
        while sent < n && !failed
            invariant
                n == old(self).size(),
                sent <= n,
                self.workers == old(self).workers,
                self.error == old(self).error,
                self.dead == old(self).dead,
                self.jobs.wf(),
                self.jobs.receivers() == old(self).jobs.receivers(),
                self.jobs.delivered() == old(self).jobs.delivered(),
                !failed ==> self.jobs.pending() == old(self).jobs.pending() + terminates::<J>(
                    sent as nat,
                ),
                failed ==> sent == 0 && self.jobs == old(self).jobs && self.jobs.receivers() == 0,
                sent > 0 ==> self.jobs.receivers() > 0,
                sent == 0 ==> self.jobs == old(self).jobs,
            decreases n - sent + if failed {
                0int
            } else {
                1int
            },
        {
            match self.jobs.send(Message::Terminate) {
                Ok(()) => {
                    assert(terminates::<J>((sent + 1) as nat) =~= terminates::<J>(
                        sent as nat,
                    ).push(Message::Terminate));
                    assert(old(self).jobs.pending() + terminates::<J>((sent + 1) as nat) =~= (
                    old(self).jobs.pending() + terminates::<J>(sent as nat)).push(
                        Message::Terminate,
                    ));
                    sent = sent + 1;
                },
                Err(_) => {
                    failed = true;
                },
            }
        }
        if failed {
            self.record_send_failure();
            self.dead = true;
            2
        } else {
            self.dead = true;
            0
        }
    }

    /// Whether the pool is dead.
    pub fn is_dead(&self) -> (r: bool)
        ensures
            r == self.dead(),
    {
        self.dead
    }

    /// The number of messages waiting on the job queue.
    pub fn queued(&self) -> (r: usize)
        ensures
            r == self.jobs().pending().len(),
    {
        self.jobs.len()
    }

    /// The supervisor.
    pub fn error_handler(&self) -> (r: &ErrorHandler)
        ensures
            *r == self.handler(),
    {
        &self.error
    }

    /// The number of workers.
    pub fn worker_count(&self) -> (r: usize)
        requires
            self.wf(),
        ensures
            r == self.size(),
    {
        self.workers.len()
    }

    /// The state of worker `i`.
    pub fn worker_state(&self, i: usize) -> (r: WorkerState)
        requires
            self.wf(),
            i < self.size(),
        ensures
            r == self.states()[i as int],
    {
        self.workers[i].state
    }

    /// How many workers have not terminated.
    pub fn live_worker_count(&self) -> (r: usize)
        requires
            self.wf(),
        ensures
            r == self.live_workers(),
    {
        self.jobs.receiver_count()
    }

    proof fn lemma_set_state_spec(self, other: ThreadPool<J>, i: int)
        requires
            0 <= i < self.size(),
            other.states() == self.states().update(i, other.states()[i]),
        ensures
            other.live_workers() == self.live_workers() - live_weight(self.states()[i])
                + live_weight(other.states()[i]),
    {
        lemma_live_count_update(self.states(), i, other.states()[i]);
    }

    proof fn lemma_set_state(&self, other: &ThreadPool<J>, i: int, w: Worker)
        requires
            0 <= i < self.workers@.len(),
            other.workers@ == self.workers@.update(i, w),
        ensures
            other.states() == self.states().update(i, w.state),
            other.live_workers() == self.live_workers() - live_weight(self.states()[i])
                + live_weight(w.state),
    {
        assert(other.states() =~= self.states().update(i, w.state));
        lemma_live_count_update(self.states(), i, w.state);
    }

    /// `next_job(i)` moved the pool from `old` to `new` and returned `r`: a
    /// worker that is not polling gets nothing and nothing changes;
    /// a polling worker takes the oldest message of the queue, if any, and
    /// moves as `receive` says, leaving the queue for good when told to
    /// terminate.
    pub open spec fn next_job_post(old: ThreadPool<J>, new: ThreadPool<J>, i: int, r: Option<J>) -> bool {
        &&& new.wf()
        &&& new.size() == old.size()
        &&& new.dead() == old.dead()
        &&& new.handler() == old.handler()
        &&& if old.states()[i] != WorkerState::Polling {
            r is None && new == old
        } else if old.jobs().pending().len() == 0 {
            &&& r is None
            &&& new.states() == old.states()
            &&& new.jobs().pending() == old.jobs().pending()
            &&& new.jobs().sent() == old.jobs().sent()
            &&& new.jobs().delivered() == old.jobs().delivered()
        } else {
            let msg = old.jobs().pending()[0];
            &&& r == job_of(msg)
            &&& new.states() == old.states().update(i, receive_state(msg))
            &&& new.jobs().pending() == old.jobs().pending().drop_first()
            &&& new.jobs().sent() == old.jobs().sent()
            &&& new.jobs().delivered() == old.jobs().delivered().push(msg)
        }
    }

    /// One poll of the job queue by worker `i`; the job to run, if any.
    pub fn next_job(&mut self, i: usize) -> (r: Option<J>)
        requires
            old(self).wf(),
            i < old(self).size(),
        ensures
            Self::next_job_post(*old(self), *final(self), i as int, r),
    {
        let mut w = self.workers[i];
        if w.state != WorkerState::Polling {
            return None;
        }
        let msg = poll_message(&mut self.jobs);
        let job = w.receive(msg);
        let ghost before = *self;
        self.workers.set(i, w);
        proof {
            before.lemma_set_state(self, i as int, w);
            lemma_live_count_bounds(self.states());
            if old(self).jobs.pending().len() == 0 {
                assert(self.states() =~= old(self).states());
            }
        }
        if w.is_terminated() {
            self.jobs.detach();
        }
        job
    }

    /// `job_done(i)`: an executing worker is polling again; any other is
    /// left as it is.
    pub open spec fn job_done_post(old: ThreadPool<J>, new: ThreadPool<J>, i: int) -> bool {
        &&& new.wf()
        &&& new.jobs() == old.jobs()
        &&& new.dead() == old.dead()
        &&& new.handler() == old.handler()
        &&& new.states() == if old.states()[i] == WorkerState::Executing {
            old.states().update(i, WorkerState::Polling)
        } else {
            old.states()
        }
    }

    /// Worker `i` has finished the job it was running.
    pub fn job_done(&mut self, i: usize)
        requires
            old(self).wf(),
            i < old(self).size(),
        ensures
            Self::job_done_post(*old(self), *final(self), i as int),
    {
        let mut w = self.workers[i];
        if w.state == WorkerState::Executing {
            w.finish_job();
            let ghost before = *self;
            self.workers.set(i, w);
            proof {
                before.lemma_set_state(self, i as int, w);
            }
        }
    }

    /// `check_fatal(i)`: a polling worker takes the oldest signal of the
    /// worker-error channel, if any, and terminates on a fatal one, leaving
    /// the job queue for good; any other worker is left as it is.
    pub open spec fn check_fatal_post(old: ThreadPool<J>, new: ThreadPool<J>, i: int) -> bool {
        &&& new.wf()
        &&& new.size() == old.size()
        &&& new.dead() == old.dead()
        &&& new.jobs().pending() == old.jobs().pending()
        &&& new.jobs().sent() == old.jobs().sent()
        &&& new.jobs().delivered() == old.jobs().delivered()
        &&& if old.states()[i] != WorkerState::Polling {
            new == old
        } else {
            let errs = old.handler().errors().pending();
            &&& new.handler().errors().pending() == after_poll(old.handler().errors())
            &&& new.handler().same_but_errors(old.handler())
            &&& new.handler().log() == old.handler().log()
            &&& new.states() == old.states().update(
                i,
                if errs.len() > 0 {
                    observe_state(errs[0])
                } else {
                    WorkerState::Polling
                },
            )
        }
    }

    /// Worker `i` checks the worker-error channel once.
    pub fn check_fatal(&mut self, i: usize)
        requires
            old(self).wf(),
            i < old(self).size(),
        ensures
            Self::check_fatal_post(*old(self), *final(self), i as int),
    {
        let mut w = self.workers[i];
        if w.state != WorkerState::Polling {
            return ;
        }
        let err = self.error.poll_error();
        w.observe(&err);
        let ghost before = *self;
        self.workers.set(i, w);
        proof {
            before.lemma_set_state(self, i as int, w);
            lemma_live_count_bounds(self.states());
        }
        if w.is_terminated() {
            self.jobs.detach();
        }
    }

    /// One cycle of the supervisor's watcher; `true` once it is done.
    pub fn close_step(&mut self) -> (r: bool)
        requires
            old(self).wf(),
        ensures
            final(self).wf(),
            final(self).jobs() == old(self).jobs(),
            final(self).dead() == old(self).dead(),
            final(self).same_workers(*old(self)),
            ErrorHandler::close_post(old(self).handler(), final(self).handler(), r),
    {
        self.error.close_step()
    }

    /// Records an error through the supervisor.
    pub fn report(&mut self, err: ErrorType)
        requires
            old(self).wf(),
        ensures
            final(self).wf(),
            final(self).jobs() == old(self).jobs(),
            final(self).dead() == old(self).dead(),
            final(self).same_workers(*old(self)),
            exists|t: String| ErrorHandler::recorded(old(self).handler(), final(self).handler(), err, t),
    {
        self.error.send(err);
        let ghost t = choose|t: String|
            ErrorHandler::recorded(old(self).error, self.error, err, t);
        assert(ErrorHandler::recorded(old(self).handler(), self.handler(), err, t));
    }

    /// Hands out the log entries recorded so far, oldest first.
    pub fn take_log(&mut self) -> (r: Vec<LogEntry>)
        requires
            old(self).wf(),
        ensures
            final(self).wf(),
            r@ == old(self).handler().log(),
            final(self).handler().log().len() == 0,
            final(self).handler().errors() == old(self).handler().errors(),
            final(self).handler().same_but_errors(old(self).handler()),
            final(self).jobs() == old(self).jobs(),
            final(self).dead() == old(self).dead(),
            final(self).same_workers(*old(self)),
    {
        self.error.take_log()
    }

    /// The operator prompt's check before it reads a line: `true` when a
    /// fatal notice is waiting for it, which it takes.
    pub fn input_should_stop(&mut self) -> (r: bool)
        requires
            old(self).wf(),
        ensures
            final(self).wf(),
            r == front_fatal(old(self).handler().notices()),
            final(self).handler().notices().pending() == after_poll(old(self).handler().notices()),
            final(self).handler().errors() == old(self).handler().errors(),
            final(self).handler().commands() == old(self).handler().commands(),
            final(self).handler().fanned_out() == old(self).handler().fanned_out(),
            final(self).handler().log() == old(self).handler().log(),
            final(self).jobs() == old(self).jobs(),
            final(self).dead() == old(self).dead(),
            final(self).same_workers(*old(self)),
    {
        self.error.poll_notice()
    }

    /// `input_line(line)`: a line that trims to the shutdown keyword puts a
    /// fatal signal on the command channel and marks the pool dead at once;
    /// any other line changes nothing.
    pub open spec fn input_post(old: ThreadPool<J>, new: ThreadPool<J>, line: Seq<char>, r: bool) -> bool {
        &&& new.wf()
        &&& new.jobs() == old.jobs()
        &&& new.same_workers(old)
        &&& r == (trimmed(line) == "exit"@)
        &&& if r {
            &&& new.dead()
            &&& new.handler().errors() == old.handler().errors()
            &&& new.handler().notices() == old.handler().notices()
            &&& new.handler().fanned_out() == old.handler().fanned_out()
            &&& new.handler().log() == old.handler().log()
            &&& forwarded(
                old.handler().commands(),
                new.handler().commands(),
                quit_text(),
            )
        } else {
            new == old
        }
    }

    /// Handles one line read from the operator; `true` when it asked for
    /// shutdown.
    pub fn input_line(&mut self, line: &str) -> (r: bool)
        requires
            old(self).wf(),
        ensures
            Self::input_post(*old(self), *final(self), line@, r),
    {
        if !is_shutdown_command(trim(line)) {
            return false;
        }
        let quit = ErrorType::Fatal(String::from_str("User asked to quit"));
        self.error.send_command(quit);
        assert(self.error.commands().pending().drop_last() =~= old(self).error.commands().pending());
        self.dead = true;
        true
    }
}

/// Submissions are handed out in the order they were made, each at most
/// once: the messages handed to workers are the first ones submitted, and
/// the rest wait on the queue in order.
pub proof fn lemma_delivered_in_order<J>(p: ThreadPool<J>)
    requires
        p.wf(),
    ensures
        p.jobs().delivered().len() <= p.jobs().sent().len(),
        forall|k: int|
            0 <= k < p.jobs().delivered().len() ==> #[trigger] p.jobs().delivered()[k]
                == p.jobs().sent()[k],
        p.jobs().sent() == p.jobs().delivered() + p.jobs().pending(),
{
    lemma_delivered_once(&p.jobs());
}

/// A job handed to a worker is the oldest submission not yet handed out; it
/// leaves the queue as it is handed out, so no other worker, and no later
/// poll, can receive it again, and the worker is then running it.
pub proof fn lemma_job_handed_out_once<J>(p: ThreadPool<J>, q: ThreadPool<J>, i: int, j: J)
    requires
        p.wf(),
        0 <= i < p.size(),
        ThreadPool::next_job_post(p, q, i, Some(j)),
    ensures
        p.jobs().pending().len() > 0,
        p.jobs().pending()[0] == Message::NewMessage(j),
        q.jobs().sent()[p.jobs().delivered().len() as int] == Message::NewMessage(j),
        q.jobs().pending() == p.jobs().pending().drop_first(),
        q.jobs().delivered() == p.jobs().delivered().push(Message::NewMessage(j)),
        q.states()[i] == WorkerState::Executing,
{
    lemma_delivered_once(&p.jobs());
    let msg = p.jobs().pending()[0];
    assert(msg is NewMessage);
    assert(p.jobs().sent()[p.jobs().delivered().len() as int + 0] == msg);
}

/// After a shutdown the pool is dead, and every worker still running has a
/// terminate message waiting for it: a clean shutdown queues one per worker
/// behind the pending jobs, and a failed one means none was left running.
pub proof fn lemma_shutdown_reaches_every_worker<J>(p: ThreadPool<J>, q: ThreadPool<J>, r: usize)
    requires
        p.wf(),
        !p.dead(),
        ThreadPool::kill_post(p, q, r),
    ensures
        q.dead(),
        r == 0 || r == 2,
        r == 0 ==> q.jobs().pending().subrange(
            q.jobs().pending().len() - q.size(),
            q.jobs().pending().len() as int,
        ) == terminates::<J>(q.size()) && q.live_workers() <= q.size(),
        r == 2 ==> q.live_workers() == 0,
{
    lemma_live_count_bounds(q.states());
    if r == 0 {
        let n = p.jobs().pending().len();
        assert(q.jobs().pending().subrange(n as int, q.jobs().pending().len() as int)
            =~= terminates::<J>(q.size()));
    }
}

/// Shutting down twice ends where shutting down once does: the second call
/// reports that the pool was already dead and sends nothing.
pub proof fn lemma_kill_idempotent<J>(
    p: ThreadPool<J>,
    q: ThreadPool<J>,
    s: ThreadPool<J>,
    r1: usize,
    r2: usize,
)
    requires
        p.wf(),
        ThreadPool::kill_post(p, q, r1),
        ThreadPool::kill_post(q, s, r2),
    ensures
        s == q,
        r2 == 1,
{
}

/// A job submitted to a dead pool is dropped: nothing is queued, so no
/// worker can ever run it, and nothing else changes.
pub proof fn lemma_dead_pool_rejects<J>(p: ThreadPool<J>, q: ThreadPool<J>, f: J, r: Submission)
    requires
        p.wf(),
        p.dead(),
        ThreadPool::execute_post(p, q, f, r),
    ensures
        r == Submission::Rejected,
        q == p,
        q.jobs().pending() == p.jobs().pending(),
{
}

/// A polling worker that meets a fatal signal on the worker-error channel
/// terminates and stops taking jobs.
pub proof fn lemma_fatal_stops_worker<J>(p: ThreadPool<J>, q: ThreadPool<J>, i: int)
    requires
        p.wf(),
        0 <= i < p.size(),
        p.states()[i] == WorkerState::Polling,
        front_fatal(p.handler().errors()),
        ThreadPool::check_fatal_post(p, q, i),
    ensures
        q.states()[i] == WorkerState::Terminated,
        q.live_workers() == p.live_workers() - 1,
{
    p.lemma_set_state_spec(q, i);
}

} // verus!
