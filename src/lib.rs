//! A bounded worker pool with centralised fault propagation and coordinated
//! shutdown, together with the request and configuration logic of the small
//! static-file server built on it.
//!
//! Everything here is a verified state machine or a verified function on
//! plain values; threads, sleeps, sockets and files are driven by the
//! surrounding application, which feeds the results of its I/O back in.
use vstd::prelude::*;

pub mod channel;
pub mod text;
pub mod http;
pub mod signal;
pub mod error_handler;
pub mod worker;
pub mod thread_pool;

verus! {

/// A unit of deferred work that can be run exactly once through a box.
pub trait FnBox {
    /// Whether running the boxed work is allowed in its current state.
    spec fn can_run(&self) -> bool;

    /// Runs the work, consuming it.
    fn call_box(self: Box<Self>)
        requires
            self.can_run(),
    ;
}

impl<F: FnOnce()> FnBox for F {
    open spec fn can_run(&self) -> bool {
        call_requires(*self, ())
    }

    fn call_box(self: Box<F>) {
        (*self)()
    }
}

} // verus!
