//! The tri-state run/close/exit signal that coordinates a reader with its
//! writers, and the process-wide exit signal.
//!
//! A signal holds one of `SIG_RUN`, `SIG_CLOSE`, `SIG_EXIT`. All transitions
//! go through `advance`, which makes `SIG_EXIT` final: once a group is told
//! to exit, no later request moves it back.

use std::sync::Arc;
use std::sync::Mutex;
use vstd::prelude::*;

verus! {

/// Signal value: the group is live; writers may open and write.
pub const SIG_RUN: u8 = 0;

/// Signal value: the group (or the process) is to exit.
pub const SIG_EXIT: u8 = 1;

/// Signal value: writers must park and keep their pipes closed.
pub const SIG_CLOSE: u8 = 2;

/// The polling interval, in milliseconds: the longest any loop waits before
/// it re-checks its signal.
pub const POLL_INTERVAL_MS: u64 = 100;

/// A shared cell holding one signal value. Handles made by `duplicate`
/// refer to the same cell; reads and writes go through a lock held only for
/// the single access. The cell is opaque here: what a load returns depends
/// on the other threads holding handles, so nothing is promised of it.
#[verifier::external_body]
pub struct Signal {
    cell: Arc<Mutex<u8>>,
}

/// The value a transition lands on when `req` is requested while `cur`
/// holds: `SIG_EXIT` is final, every other state moves to the request.
pub open spec fn spec_advance(cur: u8, req: u8) -> u8 {
    if cur == SIG_EXIT {
        SIG_EXIT
    } else {
        req
    }
}

/// Executable transition table of the signal; see `spec_advance`.
pub fn advance(cur: u8, req: u8) -> (next: u8)
    ensures
        next == spec_advance(cur, req),
{
    if cur == SIG_EXIT {
        SIG_EXIT
    } else {
        req
    }
}

/// Law: the signal is monotone toward `SIG_EXIT`. Once a cell holds
/// `SIG_EXIT` every further transition keeps it, and a request to exit is
/// always honoured, whatever currently holds.
pub proof fn lemma_signal_monotone(cur: u8, req: u8)
    ensures
        spec_advance(SIG_EXIT, req) == SIG_EXIT,
        spec_advance(cur, SIG_EXIT) == SIG_EXIT,
        spec_advance(cur, req) == SIG_EXIT ==> cur == SIG_EXIT || req == SIG_EXIT,
{
}

impl Signal {
    /// Relies on std::sync::Mutex::new (via Arc::new): a fresh cell holding
    /// `v`, shared with nobody yet.
    #[verifier::external_body]
    fn new_cell(v: u8) -> Signal {
        Signal { cell: Arc::new(Mutex::new(v)) }
    }

    /// Relies on std::sync::Mutex::lock: the value the cell holds at some
    /// moment during the call. A poisoned lock still yields the value.
    #[verifier::external_body]
    pub(crate) fn load(&self) -> u8 {
        match self.cell.lock() {
            Ok(guard) => *guard,
            Err(poisoned) => *poisoned.into_inner(),
        }
    }

    /// Relies on std::sync::Mutex::lock: store `v` into the cell.
    #[verifier::external_body]
    fn store(&self, v: u8) {
        match self.cell.lock() {
            Ok(mut guard) => *guard = v,
            Err(mut poisoned) => **poisoned.get_mut() = v,
        }
    }

    /// Relies on std::sync::Arc::clone: another handle to the same cell.
    #[verifier::external_body]
    fn clone_cell(&self) -> Signal {
        Signal { cell: Arc::clone(&self.cell) }
    }

    /// Another handle to the same cell: loads and stores through either
    /// handle meet.
    pub fn duplicate(&self) -> Signal {
        self.clone_cell()
    }

    /// A fresh signal for a live process or group.
    pub fn new_run() -> Signal {
        Signal::new_cell(SIG_RUN)
    }

    /// A fresh signal whose writers start parked.
    pub fn new_close() -> Signal {
        Signal::new_cell(SIG_CLOSE)
    }

    /// Request the transition to `req`, honouring the finality of
    /// `SIG_EXIT`.
    pub(crate) fn request(&self, req: u8) {
        let cur = self.load();
        self.store(advance(cur, req));
    }

    /// Tell everyone watching this signal to exit; final.
    pub fn request_exit(&self) {
        self.request(SIG_EXIT);
    }
}

} // verus!
