//! The reader (input task) of one source FIFO, and the fan-out.
//!
//! A reader owns the sending ends of the line channels to its writers and
//! the group's writer-state signal. It parks its writers while the source
//! is not producing, offers every complete line to every destination
//! without ever waiting, and marks a destination dead for good once its
//! writer is gone. Opening the source, polling it and reading lines belong
//! to the binary, which hands the outcomes back to these functions.

use vstd::prelude::*;

use std::sync::mpsc::SyncSender;

use crate::channel::{sync_line_channel, try_send_line, RecvOutcome, SendOutcome, CHANNEL_CAPACITY};
use crate::config::{enabled_outputs_seq, in_view, SplitIn};
use crate::signal::{spec_advance, Signal, SIG_CLOSE, SIG_EXIT, SIG_RUN};
use crate::writer::{spec_drain_decision, spec_idle_step, DrainStep, IdleStep, Writer};

verus! {

/// The sending end of one destination's line channel, with the dead-end
/// mark that keeps a vanished writer from ever being offered lines again.
pub struct MessageSender {
    /// Set once the receiving writer is gone; never cleared.
    pub disconnected: bool,
    /// The channel itself.
    pub sender: SyncSender<String>,
}

/// How one attempt to read a line from the source pipe ended, as
/// classified by the caller that performed it.
#[derive(Debug)]
pub enum ReadOutcome {
    /// A complete line, delimiter included.
    Line(String),
    /// Zero bytes: no producer data right now.
    EndOfStream,
    /// The read would have blocked.
    WouldBlock,
    /// The producer side broke; logged and tolerated.
    BrokenPipe,
    /// Any other failure; logged and tolerated.
    Failed,
}

/// What the reader's drain loop does next.
#[derive(Clone, Copy, Debug, PartialEq, Eq)]
pub enum ReadStep {
    /// The line was fanned out; keep reading.
    Deliver,
    /// Leave the drain loop and go back to polling.
    StopDraining,
    /// Sleep one polling interval, then keep reading.
    Sleep,
    /// Keep reading.
    Continue,
}

/// The read decision table: end of stream returns to polling, a would-block
/// read sleeps, broken pipes and other failures are tolerated.
pub open spec fn spec_read_step(outcome: ReadOutcome) -> ReadStep {
    match outcome {
        ReadOutcome::Line(_) => ReadStep::Deliver,
        ReadOutcome::EndOfStream => ReadStep::StopDraining,
        ReadOutcome::WouldBlock => ReadStep::Sleep,
        ReadOutcome::BrokenPipe => ReadStep::Continue,
        ReadOutcome::Failed => ReadStep::Continue,
    }
}

/// The sources that get a reader each: the enabled ones with at least one
/// enabled destination, in configuration order.
pub open spec fn wanted_inputs(entries: Seq<SplitIn>) -> Seq<SplitIn> {
    entries.filter(
        |x: SplitIn| x.configuration.enabled && enabled_outputs_seq(x.outputs@).len() > 0,
    )
}

/// The input task of one source FIFO.
pub struct Reader {
    /// The process-wide exit signal.
    pub signal: Signal,
    /// The source this reader serves, with its destinations.
    pub config: SplitIn,
    /// One sending end per enabled destination, in configuration order.
    pub send_channels: Vec<MessageSender>,
    /// The writer-state signal of this group; every writer holds a handle.
    pub write_signal: Signal,
}

impl Reader {
    /// A reader for `config`, watching the process-wide `signal`. Its
    /// writers start parked; `start_write_channels` creates them.
    pub fn new(signal: Signal, config: SplitIn) -> (r: Reader)
        ensures
            r.config == config,
            r.send_channels@.len() == 0,
    {
        Reader {
            signal,
            config,
            write_signal: Signal::new_close(),
            send_channels: Vec::new(),
        }
    }

    /// Whether the process-wide signal says exit.
    pub fn should_stop(&self) -> bool {
        self.signal.load() == SIG_EXIT
    }

    /// Tell this group's writers to exit; final.
    pub fn stop_writers(&self) {
        self.write_signal.request(SIG_EXIT);
    }

    /// Park this group's writers: the source is not producing.
    pub fn close_writing_pipes(&self) {
        self.write_signal.request(SIG_CLOSE);
    }

    /// Wake this group's writers: the source is producing.
    pub fn open_writing_pipes(&self) {
        self.write_signal.request(SIG_RUN);
    }

    /// Create one bounded channel and one writer per enabled destination.
    /// The caller gives each returned writer a thread of its own.
    pub fn start_write_channels(&mut self) -> (writers: Vec<Writer>)
        ensures
            final(self).signal == old(self).signal,
            final(self).config == old(self).config,
            final(self).write_signal == old(self).write_signal,
            final(self).send_channels@.len() == enabled_outputs_seq(
                old(self).config.outputs@,
            ).len(),
            writers@.len() == final(self).send_channels@.len(),
            forall|i: int| 0 <= i < writers@.len() ==> (#[trigger] writers@[i]).config
                == enabled_outputs_seq(old(self).config.outputs@)[i],
            forall|i: int| 0 <= i < writers@.len() ==> !(#[trigger] writers@[i]).ignore_first_message,
            forall|i: int| 0 <= i < final(self).send_channels@.len() ==> !(#[trigger] final(self).send_channels@[i]).disconnected,
    {
        self.send_channels.clear();
        let mut writers: Vec<Writer> = Vec::new();
        let ghost outs = self.config.outputs@;
        let mut i: usize = 0;
        while i < self.config.outputs.len()
            invariant
                i <= outs.len(),
                self.signal == old(self).signal,
                self.config == old(self).config,
                self.write_signal == old(self).write_signal,
                outs == self.config.outputs@,
                self.send_channels@.len() == enabled_outputs_seq(outs.take(i as int)).len(),
                writers@.len() == self.send_channels@.len(),
                forall|j: int| 0 <= j < writers@.len() ==> (#[trigger] writers@[j]).config
                    == enabled_outputs_seq(outs.take(i as int))[j],
                forall|j: int| 0 <= j < writers@.len() ==> !(#[trigger] writers@[j]).ignore_first_message,
                forall|j: int| 0 <= j < self.send_channels@.len() ==> !(#[trigger] self.send_channels@[j]).disconnected,
            decreases outs.len() - i,
        {
            proof {
                reveal(Seq::filter);
                assert(outs.take(i + 1).drop_last() =~= outs.take(i as int));
                assert(outs.take(i + 1).last() == outs[i as int]);
            }
            let out = self.config.outputs[i].clone();
            if out.configuration.enabled {
                let (sender, receiver) = sync_line_channel(CHANNEL_CAPACITY);
                self.send_channels.push(MessageSender { disconnected: false, sender });
                writers.push(Writer::new(self.write_signal.duplicate(), out, receiver));
            }
            i = i + 1;
        }
        proof {
            assert(outs.take(outs.len() as int) =~= outs);
        }
        writers
    }

    /// Offer line `m` to every destination that is still alive, without
    /// ever waiting: a full channel drops the line for that destination
    /// alone, and a destination whose writer is gone is marked dead for
    /// good and never offered a line again.
    pub fn send_message(&mut self, m: String)
        ensures
            final(self).signal == old(self).signal,
            final(self).config == old(self).config,
            final(self).write_signal == old(self).write_signal,
            final(self).send_channels@.len() == old(self).send_channels@.len(),
            forall|i: int| 0 <= i < old(self).send_channels@.len() ==> (#[trigger] final(self).send_channels@[i]).sender == old(self).send_channels@[i].sender,
            forall|i: int| 0 <= i < old(self).send_channels@.len() ==> ((#[trigger] old(self).send_channels@[i]).disconnected ==> final(self).send_channels@[i].disconnected),
    {
        let n = self.send_channels.len();
        let mut i: usize = 0;
        while i < n
            invariant
                i <= n,
                self.signal == old(self).signal,
                self.config == old(self).config,
                self.write_signal == old(self).write_signal,
                n == self.send_channels@.len(),
                self.send_channels@.len() == old(self).send_channels@.len(),
                forall|j: int| 0 <= j < n ==> (#[trigger] self.send_channels@[j]).sender == old(self).send_channels@[j].sender,
                forall|j: int| 0 <= j < n ==> ((#[trigger] old(self).send_channels@[j]).disconnected
                    ==> self.send_channels@[j].disconnected),
            decreases n - i,
        {
            if !self.send_channels[i].disconnected {
                match try_send_line(&self.send_channels[i].sender, m.clone()) {
                    SendOutcome::Disconnected => {
                        self.send_channels[i].disconnected = true;
                    },
                    SendOutcome::Sent => {},
                    SendOutcome::Full => {},
                }
            }
            i = i + 1;
        }
    }

    /// Digest one read outcome: fan a line out, and decide what the drain
    /// loop does next, following `spec_read_step`. The destinations only
    /// ever change by dead ones being marked, as in `send_message`.
    pub fn handle_read(&mut self, outcome: ReadOutcome) -> (s: ReadStep)
        ensures
            s == spec_read_step(outcome),
            final(self).signal == old(self).signal,
            final(self).config == old(self).config,
            final(self).write_signal == old(self).write_signal,
            final(self).send_channels@.len() == old(self).send_channels@.len(),
            forall|i: int| 0 <= i < old(self).send_channels@.len() ==> (#[trigger] final(self).send_channels@[i]).sender == old(self).send_channels@[i].sender,
            forall|i: int| 0 <= i < old(self).send_channels@.len() ==> ((#[trigger] old(self).send_channels@[i]).disconnected ==> final(self).send_channels@[i].disconnected),
    {
        match outcome {
            ReadOutcome::Line(line) => {
                self.send_message(line);
                ReadStep::Deliver
            },
            ReadOutcome::EndOfStream => ReadStep::StopDraining,
            ReadOutcome::WouldBlock => ReadStep::Sleep,
            ReadOutcome::BrokenPipe => ReadStep::Continue,
            ReadOutcome::Failed => ReadStep::Continue,
        }
    }
}

/// One reader per source that wants one: the enabled sources with at least
/// one enabled destination, in configuration order, each watching the
/// process-wide `signal`.
pub fn create_readers(entries: Vec<SplitIn>, signal: &Signal) -> (readers: Vec<Reader>)
    ensures
        readers@.len() == wanted_inputs(entries@).len(),
        forall|i: int| 0 <= i < readers@.len() ==> in_view((#[trigger] readers@[i]).config)
            == in_view(wanted_inputs(entries@)[i]),
        forall|i: int| 0 <= i < readers@.len() ==> (#[trigger] readers@[i]).send_channels@.len()
            == 0,
{
    let ghost all = entries@;
    let mut readers: Vec<Reader> = Vec::new();
    let mut i: usize = 0;
    let n = entries.len();
    while i < n
        invariant
            i <= n,
            n == entries@.len(),
            entries@ == all,
            readers@.len() == wanted_inputs(all.take(i as int)).len(),
            forall|j: int| 0 <= j < readers@.len() ==> in_view((#[trigger] readers@[j]).config)
                == in_view(wanted_inputs(all.take(i as int))[j]),
            forall|j: int| 0 <= j < readers@.len() ==> (#[trigger] readers@[j]).send_channels@.len()
                == 0,
        decreases n - i,
    {
        proof {
            reveal(Seq::filter);
            assert(all.take(i + 1).drop_last() =~= all.take(i as int));
            assert(all.take(i + 1).last() == all[i as int]);
        }
        let wants = entries[i].wants_reader();
        if wants {
            let input = entries[i].clone();
            readers.push(Reader::new(signal.duplicate(), input));
        }
        i = i + 1;
    }
    proof {
        assert(all.take(all.len() as int) =~= all);
    }
    readers
}

/// Law: the reader filter is exact. The sources handed readers are
/// precisely the enabled ones with at least one enabled destination: every
/// selected source passes the test, and every source passing the test is
/// selected.
pub proof fn lemma_enabled_filter(entries: Seq<SplitIn>)
    ensures
        forall|j: int| 0 <= j < wanted_inputs(entries).len() ==> (#[trigger] wanted_inputs(
            entries,
        )[j]).configuration.enabled && enabled_outputs_seq(
            wanted_inputs(entries)[j].outputs@,
        ).len() > 0,
        forall|i: int|
            0 <= i < entries.len() && (#[trigger] entries[i]).configuration.enabled
                && enabled_outputs_seq(entries[i].outputs@).len() > 0 ==> wanted_inputs(
                entries,
            ).contains(entries[i]),
{
    let pred = |x: SplitIn| x.configuration.enabled && enabled_outputs_seq(x.outputs@).len() > 0;
    assert forall|j: int| 0 <= j < wanted_inputs(entries).len() implies (#[trigger] wanted_inputs(
        entries,
    )[j]).configuration.enabled && enabled_outputs_seq(
        wanted_inputs(entries)[j].outputs@,
    ).len() > 0 by {
        entries.lemma_filter_pred(pred, j);
    }
    assert forall|i: int|
        0 <= i < entries.len() && (#[trigger] entries[i]).configuration.enabled
            && enabled_outputs_seq(entries[i].outputs@).len() > 0 implies wanted_inputs(
        entries,
    ).contains(entries[i]) by {
        entries.lemma_filter_contains(pred, i);
    }
}

/// Law: shutdown cascades. Whatever a group's writer-state holds, a reader
/// that stops — `stop_writers`, on exit or on drop of its loop — drives it
/// to `SIG_EXIT`; and under `SIG_EXIT` every writer decision, parked or
/// draining, is to stop, whatever the latch and whatever its channel
/// yields. So each level of the task tree returns within one of its own
/// polling intervals of observing the signal.
pub proof fn lemma_shutdown_cascade(cur: u8, latch: bool, rcv: RecvOutcome)
    ensures
        spec_advance(cur, SIG_EXIT) == SIG_EXIT,
        spec_idle_step(SIG_EXIT) == IdleStep::Stop,
        spec_drain_decision(SIG_EXIT, latch, rcv).1 == DrainStep::Stop,
{
}

} // verus!
