//! The supervisor: the logging policy for fatal and non-fatal errors, and the
//! watcher that turns the first fatal signal it sees, on the command channel
//! or on the worker-error channel, into a single pool-wide shutdown
//! broadcast.
//!
//! The three channels are the worker-error channel (fed by `send`, read by the
//! workers and the watcher), the command channel (fed by the operator prompt)
//! and the notice channel (read by the operator prompt so that it can stop
//! itself). Log entries are kept in an outbox for the caller to write out.
use crate::channel::Channel;
use crate::signal::{after_poll, poll_signal, ErrorType};
use vstd::prelude::*;

verus! {

#[derive(Clone, Copy, PartialEq, Eq, Structural, Debug)]
pub enum Level {
    NonFatal,
    Fatal,
}

pub open spec fn level_tag(l: Level) -> Seq<char> {
    match l {
        Level::NonFatal => "ERROR::NON_FATAL: "@,
        Level::Fatal => "ERROR::FATAL: "@,
    }
}

/// The text of a log line: the level's tag, the message and the time.
pub open spec fn log_line(l: Level, message: Seq<char>, time: Seq<char>) -> Seq<char> {
    level_tag(l) + message + " at "@ + time
}

/// The file that lines of a level are appended to.
pub open spec fn log_file(l: Level) -> Seq<char> {
    match l {
        Level::NonFatal => "./logs/non_fatal.txt"@,
        Level::Fatal => "./logs/fatal.txt"@,
    }
}

/// One line for the error logs, not yet written.
pub struct LogEntry {
    pub level: Level,
    pub message: String,
    pub time: String,
}

impl LogEntry {
    pub fn line(&self) -> (r: String)
        ensures
            r@ == log_line(self.level, self.message@, self.time@),
    {
        let mut r = match self.level {
            Level::NonFatal => String::from_str("ERROR::NON_FATAL: "),
            Level::Fatal => String::from_str("ERROR::FATAL: "),
        };
        r.append(self.message.as_str());
        r.append(" at ");
        r.append(self.time.as_str());
        r
    }

    pub fn file(&self) -> (r: String)
        ensures
            r@ == log_file(self.level),
    {
        match self.level {
            Level::NonFatal => String::from_str("./logs/non_fatal.txt"),
            Level::Fatal => String::from_str("./logs/fatal.txt"),
        }
    }
}

/// Relies on chrono::Local::now, written out through its Display impl: the
/// current local date and time. Nothing is promised of the value.
#[verifier::external_body]
fn local_time() -> (r: String) {
    chrono::Local::now().to_string()
}

/// `n` fatal signals carrying `t`.
pub open spec fn fatals(t: String, n: nat) -> Seq<ErrorType> {
    Seq::new(n, |i: int| ErrorType::Fatal(t))
}

/// The oldest pending value of `c` is a fatal signal.
pub open spec fn front_fatal(c: Channel<ErrorType>) -> bool {
    c.pending().len() > 0 && c.pending()[0] is Fatal
}

/// `new_c` is `old_c` with one more fatal signal, carrying `text`, behind
/// what was pending.
pub open spec fn forwarded(old_c: Channel<ErrorType>, new_c: Channel<ErrorType>, text: Seq<char>) -> bool {
    &&& new_c.wf()
    &&& new_c.receivers() == old_c.receivers()
    &&& new_c.pending().len() == old_c.pending().len() + 1
    &&& new_c.pending().drop_last() == old_c.pending()
    &&& new_c.pending().last() is Fatal
    &&& new_c.pending().last()->Fatal_0@ == text
}

pub struct ErrorHandler {
    err: Channel<ErrorType>,
    comms: Channel<ErrorType>,
    input: Channel<ErrorType>,
    num: usize,
    fanned_out: bool,
    log: Vec<LogEntry>,
}

impl ErrorHandler {
    /// The worker-error channel.
    pub closed spec fn errors(&self) -> Channel<ErrorType> {
        self.err
    }

    /// The command channel.
    pub closed spec fn commands(&self) -> Channel<ErrorType> {
        self.comms
    }

    /// The notice channel, read by the operator prompt.
    pub closed spec fn notices(&self) -> Channel<ErrorType> {
        self.input
    }

    /// The number of workers a shutdown broadcast reaches.
    pub closed spec fn workers(&self) -> nat {
        self.num as nat
    }

    /// Whether the shutdown broadcast has been made.
    pub closed spec fn fanned_out(&self) -> bool {
        self.fanned_out
    }

    /// Log entries recorded and not yet taken.
    pub closed spec fn log(&self) -> Seq<LogEntry> {
        self.log@
    }

    /// The channels are well formed and open, and the notice channel has
    /// carried one signal exactly when the broadcast has been made.
    pub open spec fn wf(&self) -> bool {
        &&& self.errors().wf()
        &&& self.commands().wf()
        &&& self.notices().wf()
        &&& self.errors().receivers() > 0
        &&& self.commands().receivers() > 0
        &&& self.notices().receivers() > 0
        &&& self.notices().sent().len() == if self.fanned_out() {
            1nat
        } else {
            0nat
        }
    }

    /// Everything but the worker-error channel and the log is as before.
    pub open spec fn same_but_errors(&self, other: ErrorHandler) -> bool {
        &&& self.commands() == other.commands()
        &&& self.notices() == other.notices()
        &&& self.workers() == other.workers()
        &&& self.fanned_out() == other.fanned_out()
    }

    pub fn new(num: usize) -> (r: ErrorHandler)
        ensures
            r.wf(),
            r.workers() == num,
            !r.fanned_out(),
            r.errors().pending().len() == 0,
            r.commands().pending().len() == 0,
            r.notices().pending().len() == 0,
            r.log().len() == 0,
    {
        ErrorHandler {
            err: Channel::new(1),
            comms: Channel::new(1),
            input: Channel::new(1),
            num,
            fanned_out: false,
            log: Vec::new(),
        }
    }

    /// `send_at(err, time)` moved the handler from `old` to `new`: a
    /// non-fatal error is logged; a fatal one is logged and its line, ended
    /// by a newline, goes on the worker-error channel; `Nothing` does
    /// nothing.
    pub open spec fn recorded(old: ErrorHandler, new: ErrorHandler, err: ErrorType, time: String) -> bool {
        &&& new.wf()
        &&& new.same_but_errors(old)
        &&& match err {
            ErrorType::NonFatal(m) => {
                &&& new.log() == old.log().push(LogEntry { level: Level::NonFatal, message: m, time })
                &&& new.errors() == old.errors()
            },
            ErrorType::Fatal(m) => {
                &&& new.log() == old.log().push(LogEntry { level: Level::Fatal, message: m, time })
                &&& forwarded(old.errors(), new.errors(), log_line(Level::Fatal, m@, time@) + "\n"@)
            },
            ErrorType::Nothing(_) => {
                &&& new.log() == old.log()
                &&& new.errors() == old.errors()
            },
        }
    }

    /// Records `err`, stamped with `time`.
    pub fn send_at(&mut self, err: ErrorType, time: String)
        requires
            old(self).wf(),
        ensures
            Self::recorded(*old(self), *final(self), err, time),
    {
        match err {
            ErrorType::NonFatal(m) => {
                self.log.push(LogEntry { level: Level::NonFatal, message: m, time });
            },
            ErrorType::Fatal(m) => {
                let entry = LogEntry { level: Level::Fatal, message: m, time };
                let mut text = entry.line();
                text.append("\n");
                self.log.push(entry);
                let _ = self.err.send(ErrorType::Fatal(text));
                assert(self.err.pending().drop_last() =~= old(self).err.pending());
            },
            ErrorType::Nothing(_) => {},
        }
    }

    /// Records `err`, stamped with the current local time.
    pub fn send(&mut self, err: ErrorType)
        requires
            old(self).wf(),
        ensures
            exists|time: String| Self::recorded(*old(self), *final(self), err, time),
    {
        let time = local_time();
        let ghost t = time;
        self.send_at(err, time);
        assert(Self::recorded(*old(self), *self, err, t));
    }

    /// Puts `e` on the command channel.
    pub fn send_command(&mut self, e: ErrorType)
        requires
            old(self).wf(),
        ensures
            final(self).wf(),
            final(self).errors() == old(self).errors(),
            final(self).notices() == old(self).notices(),
            final(self).workers() == old(self).workers(),
            final(self).fanned_out() == old(self).fanned_out(),
            final(self).log() == old(self).log(),
            final(self).commands().pending() == old(self).commands().pending().push(e),
            final(self).commands().receivers() == old(self).commands().receivers(),
    {
        let _ = self.comms.send(e);
    }

    /// The broadcast of `t` was made from `old` to `new`, with `before`
    /// pending on the worker-error channel just before it: one notice for
    /// the operator prompt, then one fatal signal per worker.
    pub open spec fn broadcast(old: ErrorHandler, new: ErrorHandler, t: String, before: Seq<ErrorType>) -> bool {
        &&& new.notices().pending() == old.notices().pending().push(ErrorType::Fatal(t))
        &&& new.errors().pending() == before + fatals(t, old.workers())
        &&& new.fanned_out()
    }

    fn fan_out(&mut self, t: String)
        requires
            old(self).wf(),
            !old(self).fanned_out(),
        ensures
            final(self).wf(),
            Self::broadcast(*old(self), *final(self), t, old(self).errors().pending()),
            final(self).commands() == old(self).commands(),
            final(self).workers() == old(self).workers(),
            final(self).log() == old(self).log(),
            final(self).errors().receivers() == old(self).errors().receivers(),
    {
        let _ = self.input.send(ErrorType::Fatal(t.clone()));
        self.fanned_out = true;
        let ghost before = self.err.pending();
        let mut i: usize = 0;
        while i < self.num
            invariant
                i <= self.num,
                self.num == old(self).num,
                self.comms == old(self).comms,
                self.log == old(self).log,
                self.fanned_out,
                self.input.wf(),
                self.input.receivers() > 0,
                self.input.sent().len() == 1,
                self.input.pending() == old(self).input.pending().push(ErrorType::Fatal(t)),
                self.err.wf(),
                self.err.receivers() == old(self).err.receivers(),
                self.err.receivers() > 0,
                before == old(self).err.pending(),
                self.err.pending() == before + fatals(t, i as nat),
            decreases self.num - i,
        {
            let _ = self.err.send(ErrorType::Fatal(t.clone()));
            assert(fatals(t, (i + 1) as nat) =~= fatals(t, i as nat).push(ErrorType::Fatal(t)));
            assert(before + fatals(t, (i + 1) as nat) =~= (before + fatals(t, i as nat)).push(
                ErrorType::Fatal(t),
            ));
            i = i + 1;
        }
    }

    /// One cycle of the watcher moved the handler from `old` to `new` and
    /// returned `r`, whether the watcher is done. Once the broadcast is made
    /// nothing more happens. Otherwise a fatal signal at the front of the
    /// command channel, or else at the front of the worker-error channel,
    /// is taken and broadcast; any other value polled is dropped.
    pub open spec fn close_post(old: ErrorHandler, new: ErrorHandler, r: bool) -> bool {
        &&& new.wf()
        &&& new.workers() == old.workers()
        &&& new.log() == old.log()
        &&& if old.fanned_out() {
            r && new == old
        } else if front_fatal(old.commands()) {
            &&& r
            &&& new.commands().pending() == old.commands().pending().drop_first()
            &&& Self::broadcast(
                old,
                new,
                old.commands().pending()[0]->Fatal_0,
                old.errors().pending(),
            )
        } else if front_fatal(old.errors()) {
            &&& r
            &&& new.commands().pending() == after_poll(old.commands())
            &&& Self::broadcast(
                old,
                new,
                old.errors().pending()[0]->Fatal_0,
                old.errors().pending().drop_first(),
            )
        } else {
            &&& !r
            &&& new.commands().pending() == after_poll(old.commands())
            &&& new.errors().pending() == after_poll(old.errors())
            &&& new.notices() == old.notices()
            &&& !new.fanned_out()
        }
    }

    /// One cycle of the watcher; `true` once it has nothing more to do.
    pub fn close_step(&mut self) -> (r: bool)
        requires
            old(self).wf(),
        ensures
            Self::close_post(*old(self), *final(self), r),
    {
        if self.fanned_out {
            return true;
        }
        let command = poll_signal(&mut self.comms);
        if let ErrorType::Fatal(t) = command {
            self.fan_out(t);
            return true;
        }
        let error = poll_signal(&mut self.err);
        if let ErrorType::Fatal(t) = error {
            self.fan_out(t);
            return true;
        }
        false
    }

    /// Polls the notice channel; `true` when it yielded a fatal signal.
    pub fn poll_notice(&mut self) -> (r: bool)
        requires
            old(self).wf(),
        ensures
            final(self).wf(),
            r == front_fatal(old(self).notices()),
            final(self).notices().pending() == after_poll(old(self).notices()),
            final(self).errors() == old(self).errors(),
            final(self).commands() == old(self).commands(),
            final(self).workers() == old(self).workers(),
            final(self).fanned_out() == old(self).fanned_out(),
            final(self).log() == old(self).log(),
    {
        poll_signal(&mut self.input).is_fatal()
    }

    /// Takes a signal off the worker-error channel.
    pub fn poll_error(&mut self) -> (r: ErrorType)
        requires
            old(self).wf(),
        ensures
            final(self).wf(),
            final(self).errors().pending() == after_poll(old(self).errors()),
            final(self).errors().receivers() == old(self).errors().receivers(),
            old(self).errors().pending().len() > 0 ==> r == old(self).errors().pending()[0],
            old(self).errors().pending().len() == 0 ==> r is Nothing,
            final(self).same_but_errors(*old(self)),
            final(self).log() == old(self).log(),
    {
        poll_signal(&mut self.err)
    }

    /// Hands out the log entries recorded so far, oldest first.
    pub fn take_log(&mut self) -> (r: Vec<LogEntry>)
        requires
            old(self).wf(),
        ensures
            final(self).wf(),
            r@ == old(self).log(),
            final(self).log().len() == 0,
            final(self).errors() == old(self).errors(),
            final(self).same_but_errors(*old(self)),
    {
        let mut r = Vec::new();
        r.append(&mut self.log);
        r
    }

    /// The worker-error channel.
    pub fn get_err_recv(&self) -> (r: &Channel<ErrorType>)
        ensures
            *r == self.errors(),
    {
        &self.err
    }

    /// The command channel.
    pub fn get_comms_sender(&self) -> (r: &Channel<ErrorType>)
        ensures
            *r == self.commands(),
    {
        &self.comms
    }

    /// The notice channel.
    pub fn get_input_recv(&self) -> (r: &Channel<ErrorType>)
        ensures
            *r == self.notices(),
    {
        &self.input
    }
}

/// A single fatal signal, on the command channel or on the worker-error
/// channel, makes the watcher's next cycle end the watch with one broadcast:
/// the operator prompt finds a fatal notice on its next check, each worker
/// finds a fatal signal on the worker-error channel, one per worker, and a
/// later cycle broadcasts nothing more.
pub proof fn lemma_single_fatal_fans_out(
    h: ErrorHandler,
    h2: ErrorHandler,
    h3: ErrorHandler,
    r: bool,
    r2: bool,
    t: String,
)
    requires
        h.wf(),
        !h.fanned_out(),
        h.notices().pending().len() == 0,
        (h.commands().pending() == seq![ErrorType::Fatal(t)] && h.errors().pending().len() == 0)
            || (h.commands().pending().len() == 0 && h.errors().pending() == seq![
            ErrorType::Fatal(t),
        ]),
        ErrorHandler::close_post(h, h2, r),
        ErrorHandler::close_post(h2, h3, r2),
    ensures
        r,
        h2.fanned_out(),
        front_fatal(h2.notices()),
        h2.notices().pending() == seq![ErrorType::Fatal(t)],
        h2.errors().pending() == fatals(t, h.workers()),
        forall|k: int| 0 <= k < h.workers() ==> #[trigger] h2.errors().pending()[k] is Fatal,
        r2,
        h3 == h2,
{
    assert(h.notices().pending().push(ErrorType::Fatal(t)) =~= seq![ErrorType::Fatal(t)]);
    if h.commands().pending().len() == 0 {
        assert(h.errors().pending().drop_first() =~= Seq::<ErrorType>::empty());
        assert(h.errors().pending().drop_first() + fatals(t, h.workers()) =~= fatals(t, h.workers()));
    } else {
        assert(h.errors().pending() + fatals(t, h.workers()) =~= fatals(t, h.workers()));
    }
}

} // verus!
