//! The bounded line channels between a reader and its writers.
//!
//! Each destination gets one single-producer single-consumer channel of
//! capacity `CHANNEL_CAPACITY` (one line). The reader offers every line
//! without waiting: a full channel drops the line for that destination
//! alone, which is what isolates the others from a slow consumer.

use std::sync::mpsc::Receiver;
use std::sync::mpsc::SyncSender;
use vstd::prelude::*;

verus! {

/// Lines a reader has accepted but a writer has not yet taken: exactly one.
/// Widening this buffer would change what a slow consumer observes.
pub const CHANNEL_CAPACITY: usize = 1;

#[verifier::external_type_specification]
#[verifier::external_body]
#[verifier::reject_recursive_types(T)]
pub struct ExSyncSender<T>(SyncSender<T>);

#[verifier::external_type_specification]
#[verifier::external_body]
#[verifier::reject_recursive_types(T)]
pub struct ExReceiver<T>(Receiver<T>);

/// Outcome of offering a line to one destination without waiting.
#[derive(Clone, Copy, Debug, PartialEq, Eq)]
pub enum SendOutcome {
    /// The line was enqueued.
    Sent,
    /// The channel still held an untaken line; the offer is dropped.
    Full,
    /// The receiving writer is gone for good.
    Disconnected,
}

/// Outcome of waiting a bounded time for a line.
#[derive(Debug)]
pub enum RecvOutcome {
    /// A line arrived.
    Line(String),
    /// Nothing arrived within the wait.
    TimedOut,
    /// The sending reader is gone for good.
    Closed,
}

/// Relies on std::sync::mpsc::sync_channel: a channel whose buffer holds at
/// most `bound` lines. What later travels through it depends on the far
/// end, so nothing is promised of the pair.
#[verifier::external_body]
pub(crate) fn sync_line_channel(bound: usize) -> (SyncSender<String>, Receiver<String>) {
    std::sync::mpsc::sync_channel(bound)
}

/// Relies on std::sync::mpsc::SyncSender::try_send: never waits, and tells
/// a full buffer from a hung-up receiver. The outcome depends on the
/// receiving thread, so only the classification itself is trusted.
#[verifier::external_body]
pub(crate) fn try_send_line(sender: &SyncSender<String>, line: String) -> SendOutcome {
    match sender.try_send(line) {
        Ok(()) => SendOutcome::Sent,
        Err(std::sync::mpsc::TrySendError::Full(_)) => SendOutcome::Full,
        Err(std::sync::mpsc::TrySendError::Disconnected(_)) => SendOutcome::Disconnected,
    }
}

/// Relies on std::sync::mpsc::Receiver::recv_timeout, waiting at most
/// `millis` milliseconds. The outcome depends on the sending thread.
#[verifier::external_body]
pub(crate) fn recv_line_timeout(receiver: &Receiver<String>, millis: u64) -> RecvOutcome {
    match receiver.recv_timeout(std::time::Duration::from_millis(millis)) {
        Ok(line) => RecvOutcome::Line(line),
        Err(std::sync::mpsc::RecvTimeoutError::Timeout) => RecvOutcome::TimedOut,
        Err(std::sync::mpsc::RecvTimeoutError::Disconnected) => RecvOutcome::Closed,
    }
}

} // verus!
