//! The cancellation signal: one flag, raised once by whoever interrupts the
//! run and polled by the loop that is running.

use std::sync::atomic::{AtomicBool, Ordering};
use std::sync::Arc;
use vstd::prelude::*;

verus! {

/// A handle on the cancellation flag of one run.
///
/// All handles made from one token share the flag. Each handle also
/// remembers that it has seen the flag raised, so that it never reports a
/// stopped run as running again.
pub struct CancelToken {
    running: Arc<AtomicBool>,
    seen_stop: bool,
}

impl CancelToken {
    /// Whether this handle has seen the stop signal.
    pub closed spec fn stopped(&self) -> bool {
        self.seen_stop
    }

    /// A token for a run that has not been stopped.
    pub fn new() -> (token: CancelToken)
        ensures
            !token.stopped(),
    {
        CancelToken { running: Arc::new(AtomicBool::new(true)), seen_stop: false }
    }

    /// Another handle on the same flag, for the interrupt handler.
    pub fn handle(&self) -> (other: CancelToken)
        ensures
            other.stopped() == self.stopped(),
    {
        CancelToken { running: Arc::clone(&self.running), seen_stop: self.seen_stop }
    }

    /// Raises the flag for every handle, this one included.
    pub fn signal_stop(&mut self)
        ensures
            final(self).stopped(),
    {
        self.running.store(false, Ordering::SeqCst);
        self.seen_stop = true;
    }

    /// Takes in one reading of the flag, `true` while it says to run on, and
    /// answers whether to run on. A handle that has seen a stop answers
    /// `false` whatever the reading is.
    pub fn observe(&mut self, flag_says_run: bool) -> (go_on: bool)
        ensures
            final(self).stopped() == (old(self).stopped() || !flag_says_run),
            go_on == !final(self).stopped(),
    {
        if !flag_says_run {
            self.seen_stop = true;
        }
        !self.seen_stop
    }

    /// Polls the flag. Once a handle has answered `false`, or has raised the
    /// flag itself, it answers `false` for good: what another handle does to
    /// the flag can stop this one, but never start it again.
    pub fn should_continue(&mut self) -> (go_on: bool)
        ensures
            go_on == !final(self).stopped(),
            old(self).stopped() ==> final(self).stopped(),
    {
        let flag_says_run: bool = self.running.load(Ordering::SeqCst);
        self.observe(flag_says_run)
    }

    /// Whether this handle has seen the stop signal, without polling again.
    pub fn is_stopped(&self) -> (b: bool)
        ensures
            b == self.stopped(),
    {
        self.seen_stop
    }
}

} // verus!
