//! The writer (output task) of one destination FIFO.
//!
//! A writer owns the receiving end of its line channel and follows the
//! group's signal: it parks while the reader is not producing, opens its
//! FIFO when the group runs, drains the channel onto it, and recovers from
//! a broken pipe by arming the ignore-first-message latch and reopening.
//! The file descriptor, the readiness polling and the sleeps belong to the
//! binary, which drives these decisions in its loop.

use std::sync::mpsc::Receiver;
use vstd::prelude::*;

use crate::channel::{recv_line_timeout, RecvOutcome};
use crate::config::SplitOut;
use crate::fifo::FifoCreateError;
use crate::signal::{Signal, POLL_INTERVAL_MS, SIG_CLOSE, SIG_EXIT};

verus! {

/// What the parked (outer) loop does on one tick.
#[derive(Clone, Copy, Debug, PartialEq, Eq)]
pub enum IdleStep {
    /// Return from the writer for good.
    Stop,
    /// Stay parked one polling interval, pipe closed.
    Sleep,
    /// Create and open the destination FIFO.
    Open,
}

/// What the writer does with a finished FIFO-create attempt.
#[derive(Clone, Copy, Debug, PartialEq, Eq)]
pub enum CreateStep {
    /// Go on to open the FIFO for writing.
    Proceed,
    /// Give this writer up; the failure is not recoverable.
    Fatal,
    /// Park one polling interval and try again.
    Retry,
}

/// How an attempt to open the FIFO for writing ended, as classified by the
/// caller that performed it.
#[derive(Clone, Copy, Debug, PartialEq, Eq)]
pub enum OpenOutcome {
    /// The FIFO is open for writing.
    Opened,
    /// The writer may not open it; not recoverable.
    PermissionDenied,
    /// Any other failure — notably no consumer on the far end yet.
    Failed,
}

/// What the writer does with a finished open attempt.
#[derive(Clone, Copy, Debug, PartialEq, Eq)]
pub enum OpenStep {
    /// The pipe is ready: poll it for writability and drain the channel.
    Drain,
    /// Give this writer up; the failure is not recoverable.
    Fatal,
    /// Park one polling interval and try again.
    Retry,
}

/// What the drain loop decides after consulting the signal and waiting on
/// the channel.
#[derive(Debug, PartialEq, Eq)]
pub enum DrainStep {
    /// Return from the writer for good.
    Stop,
    /// Close the pipe and go back to the parked loop.
    ClosePipe,
    /// Write this line to the destination FIFO.
    Write(String),
    /// A line arrived but the latch discarded it; keep draining.
    Skip,
    /// Nothing arrived; sleep one polling interval and keep draining.
    Sleep,
}

/// How a write attempt on the FIFO ended, as classified by the caller that
/// performed it.
#[derive(Clone, Copy, Debug, PartialEq, Eq)]
pub enum WriteOutcome {
    /// The line went out.
    Done,
    /// The consumer vanished mid-write (broken pipe).
    BrokenPipe,
    /// Any other failure; logged by the caller and tolerated.
    Failed,
}

/// What the writer does after a write attempt.
#[derive(Clone, Copy, Debug, PartialEq, Eq)]
pub enum AfterWrite {
    /// Keep draining.
    Continue,
    /// Drop the pipe and reopen it from the parked loop.
    Reopen,
}

/// The parked loop's decision table: exit stops the writer, close keeps it
/// parked, anything else opens the pipe.
pub open spec fn spec_idle_step(sig: u8) -> IdleStep {
    if sig == SIG_EXIT {
        IdleStep::Stop
    } else if sig == SIG_CLOSE {
        IdleStep::Sleep
    } else {
        IdleStep::Open
    }
}

/// The create decision table: an existing FIFO is success, a denial is
/// fatal, any other failure is retried after a pause.
pub open spec fn spec_create_step(r: Result<(), FifoCreateError>) -> CreateStep {
    match r {
        Ok(_) => CreateStep::Proceed,
        Err(FifoCreateError::AlreadyExists) => CreateStep::Proceed,
        Err(FifoCreateError::PermissionDenied) => CreateStep::Fatal,
        Err(_) => CreateStep::Retry,
    }
}

/// The open decision table: a denial is fatal, any other failure — such as
/// no consumer being attached yet — is retried after a pause.
pub open spec fn spec_open_step(o: OpenOutcome) -> OpenStep {
    match o {
        OpenOutcome::Opened => OpenStep::Drain,
        OpenOutcome::PermissionDenied => OpenStep::Fatal,
        OpenOutcome::Failed => OpenStep::Retry,
    }
}

/// The drain loop's decision table, over the signal value, the latch and
/// the receive outcome: what the latch becomes, and what to do.
pub open spec fn spec_drain_decision(sig: u8, latch: bool, rcv: RecvOutcome) -> (bool, DrainStep) {
    if sig == SIG_EXIT {
        (latch, DrainStep::Stop)
    } else if sig == SIG_CLOSE {
        (latch, DrainStep::ClosePipe)
    } else {
        match rcv {
            RecvOutcome::Line(m) => if latch {
                (false, DrainStep::Skip)
            } else {
                (latch, DrainStep::Write(m))
            },
            RecvOutcome::TimedOut => (latch, DrainStep::Sleep),
            RecvOutcome::Closed => (latch, DrainStep::Stop),
        }
    }
}

/// The after-write table: a broken pipe arms the latch and reopens the
/// pipe; everything else keeps draining with the latch untouched.
pub open spec fn spec_after_write(outcome: WriteOutcome, latch: bool) -> (bool, AfterWrite) {
    match outcome {
        WriteOutcome::BrokenPipe => (true, AfterWrite::Reopen),
        WriteOutcome::Done => (latch, AfterWrite::Continue),
        WriteOutcome::Failed => (latch, AfterWrite::Continue),
    }
}

/// The output task of one destination FIFO.
pub struct Writer {
    /// The group's writer-state signal, shared with the reader.
    pub signal: Signal,
    /// The destination this writer serves.
    pub config: SplitOut,
    /// The receiving end of the line channel from the reader.
    pub receiver: Receiver<String>,
    /// While set, the next line taken from the channel is discarded: it may
    /// duplicate one already partially written to a vanished consumer.
    pub ignore_first_message: bool,
}

impl Writer {
    /// A writer for `config`, fed by `receiver`, watching `signal`.
    pub fn new(signal: Signal, config: SplitOut, receiver: Receiver<String>) -> (w: Writer)
        ensures
            w.config == config,
            !w.ignore_first_message,
    {
        Writer { ignore_first_message: false, signal, config, receiver }
    }

    /// Whether the group signal tells this writer to exit.
    pub fn should_stop(&self) -> bool {
        self.signal.load() == SIG_EXIT
    }

    /// Whether the group signal tells this writer to keep its pipe closed.
    pub fn should_close_pipe(&self) -> bool {
        self.signal.load() == SIG_CLOSE
    }

    /// One tick of the parked loop: consult the signal and decide whether
    /// to stop, stay parked, or open the pipe. The decision follows
    /// `spec_idle_step` for the value the signal held.
    pub fn idle_step(&self) -> (s: IdleStep)
        ensures
            exists|sig: u8| s == #[trigger] spec_idle_step(sig),
    {
        let sig = self.signal.load();
        let s = if sig == SIG_EXIT {
            IdleStep::Stop
        } else if sig == SIG_CLOSE {
            IdleStep::Sleep
        } else {
            IdleStep::Open
        };
        proof {
            assert(s == spec_idle_step(sig));
        }
        s
    }

    /// Digest a finished FIFO-create attempt; see `spec_create_step`.
    pub fn create_step(&self, r: &Result<(), FifoCreateError>) -> (s: CreateStep)
        ensures
            s == spec_create_step(*r),
    {
        match r {
            Ok(_) => CreateStep::Proceed,
            Err(FifoCreateError::AlreadyExists) => CreateStep::Proceed,
            Err(FifoCreateError::PermissionDenied) => CreateStep::Fatal,
            Err(FifoCreateError::NotFound) => CreateStep::Retry,
            Err(FifoCreateError::Other) => CreateStep::Retry,
        }
    }

    /// Digest a finished open attempt; see `spec_open_step`.
    pub fn open_step(&self, o: OpenOutcome) -> (s: OpenStep)
        ensures
            s == spec_open_step(o),
    {
        match o {
            OpenOutcome::Opened => OpenStep::Drain,
            OpenOutcome::PermissionDenied => OpenStep::Fatal,
            OpenOutcome::Failed => OpenStep::Retry,
        }
    }

    /// One iteration of the drain loop: consult the signal, then wait up to
    /// one polling interval for a line. The decision and the new latch
    /// follow `spec_drain_decision` for the signal value read and the
    /// receive outcome; in particular a latched writer never hands back a
    /// line to write, and the latch is never armed here.
    pub fn drain_step(&mut self) -> (d: DrainStep)
        ensures
            final(self).signal == old(self).signal,
            final(self).config == old(self).config,
            final(self).receiver == old(self).receiver,
            exists|sig: u8, rcv: RecvOutcome| (final(self).ignore_first_message, d)
                == #[trigger] spec_drain_decision(sig, old(self).ignore_first_message, rcv),
            d matches DrainStep::Write(_) ==> !old(self).ignore_first_message
                && !final(self).ignore_first_message,
            d == DrainStep::Skip ==> old(self).ignore_first_message
                && !final(self).ignore_first_message,
            final(self).ignore_first_message ==> old(self).ignore_first_message,
    {
        let ghost latch0 = self.ignore_first_message;
        let sig = self.signal.load();
        if sig == SIG_EXIT {
            proof {
                assert((self.ignore_first_message, DrainStep::Stop) == spec_drain_decision(
                    sig,
                    latch0,
                    RecvOutcome::TimedOut,
                ));
            }
            return DrainStep::Stop;
        }
        if sig == SIG_CLOSE {
            proof {
                assert((self.ignore_first_message, DrainStep::ClosePipe) == spec_drain_decision(
                    sig,
                    latch0,
                    RecvOutcome::TimedOut,
                ));
            }
            return DrainStep::ClosePipe;
        }
        match recv_line_timeout(&self.receiver, POLL_INTERVAL_MS) {
            RecvOutcome::Line(m) => {
                if self.ignore_first_message {
                    self.ignore_first_message = false;
                    proof {
                        assert((false, DrainStep::Skip) == spec_drain_decision(
                            sig,
                            latch0,
                            RecvOutcome::Line(m),
                        ));
                    }
                    DrainStep::Skip
                } else {
                    proof {
                        assert((latch0, DrainStep::Write(m)) == spec_drain_decision(
                            sig,
                            latch0,
                            RecvOutcome::Line(m),
                        ));
                    }
                    DrainStep::Write(m)
                }
            },
            RecvOutcome::TimedOut => {
                proof {
                    assert((latch0, DrainStep::Sleep) == spec_drain_decision(
                        sig,
                        latch0,
                        RecvOutcome::TimedOut,
                    ));
                }
                DrainStep::Sleep
            },
            RecvOutcome::Closed => {
                proof {
                    assert((latch0, DrainStep::Stop) == spec_drain_decision(
                        sig,
                        latch0,
                        RecvOutcome::Closed,
                    ));
                }
                DrainStep::Stop
            },
        }
    }

    /// Digest the outcome of a write attempt: a broken pipe arms the
    /// ignore-first-message latch and asks for a reopen; anything else
    /// keeps draining.
    pub fn after_write(&mut self, outcome: WriteOutcome) -> (a: AfterWrite)
        ensures
            final(self).signal == old(self).signal,
            final(self).config == old(self).config,
            final(self).receiver == old(self).receiver,
            (final(self).ignore_first_message, a) == spec_after_write(
                outcome,
                old(self).ignore_first_message,
            ),
    {
        match outcome {
            WriteOutcome::BrokenPipe => {
                self.ignore_first_message = true;
                AfterWrite::Reopen
            },
            WriteOutcome::Done => AfterWrite::Continue,
            WriteOutcome::Failed => AfterWrite::Continue,
        }
    }
}

/// Law: a writer that observes `SIG_EXIT` stops, wherever it stands: the
/// parked loop returns and the drain loop returns, whatever the latch and
/// whatever the channel yields.
pub proof fn lemma_exit_stops_writer(latch: bool, rcv: RecvOutcome)
    ensures
        spec_idle_step(SIG_EXIT) == IdleStep::Stop,
        spec_drain_decision(SIG_EXIT, latch, rcv).1 == DrainStep::Stop,
        spec_drain_decision(SIG_EXIT, latch, rcv).0 == latch,
{
}

/// Law: while the signal reads `SIG_CLOSE`, a parked writer stays parked
/// and a draining writer closes its pipe: no decision under `SIG_CLOSE`
/// opens the destination or writes to it.
pub proof fn lemma_close_parks_writer(latch: bool, rcv: RecvOutcome)
    ensures
        spec_idle_step(SIG_CLOSE) == IdleStep::Sleep,
        spec_drain_decision(SIG_CLOSE, latch, rcv).1 == DrainStep::ClosePipe,
        spec_drain_decision(SIG_CLOSE, latch, rcv).0 == latch,
{
}

/// Law: broken-pipe recovery. After a write ends in a broken pipe, the
/// latch is armed and the pipe reopened; the next line taken from the
/// channel is discarded and disarms the latch; the line after that is
/// written again.
pub proof fn lemma_epipe_recovery(sig: u8, latch0: bool, m1: String, m2: String)
    requires
        sig != SIG_EXIT,
        sig != SIG_CLOSE,
    ensures
        ({
            let (latch1, a) = spec_after_write(WriteOutcome::BrokenPipe, latch0);
            let (latch2, d1) = spec_drain_decision(sig, latch1, RecvOutcome::Line(m1));
            let (latch3, d2) = spec_drain_decision(sig, latch2, RecvOutcome::Line(m2));
            a == AfterWrite::Reopen && d1 == DrainStep::Skip && d2 == DrainStep::Write(m2)
                && !latch3
        }),
{
}

} // verus!
