//! Tests of the engine logic: reader construction, fan-out over the
//! capacity-one channels, writer parking, broken-pipe recovery, and the
//! shutdown cascade. The channels are real; the loops that would normally
//! run in threads are driven step by step here.

use psplit::config::{Config, OperationMode, SplitIn, SplitOut};
use psplit::fifo::{mkfifo_result, FifoCreateError};
use psplit::reader::{create_readers, Reader, ReadOutcome, ReadStep};
use psplit::signal::{advance, Signal, SIG_CLOSE, SIG_EXIT, SIG_RUN};
use psplit::writer::{
    AfterWrite, CreateStep, DrainStep, IdleStep, OpenOutcome, OpenStep, WriteOutcome, Writer,
};

fn out(path: &str, enabled: bool) -> SplitOut {
    SplitOut {
        pipe: String::from(path),
        configuration: Config { enabled, mode: Some(OperationMode::StringWrite) },
    }
}

fn source(path: &str, enabled: bool, outputs: Vec<SplitOut>) -> SplitIn {
    SplitIn {
        configuration: Config { enabled, mode: Some(OperationMode::StringRead) },
        outputs,
        pipe: String::from(path),
    }
}

#[test]
fn signal_advance_is_monotone() {
    assert_eq!(advance(SIG_RUN, SIG_CLOSE), SIG_CLOSE);
    assert_eq!(advance(SIG_CLOSE, SIG_RUN), SIG_RUN);
    assert_eq!(advance(SIG_RUN, SIG_EXIT), SIG_EXIT);
    assert_eq!(advance(SIG_EXIT, SIG_RUN), SIG_EXIT);
    assert_eq!(advance(SIG_EXIT, SIG_CLOSE), SIG_EXIT);
}

#[test]
fn mkfifo_errno_classification() {
    assert!(mkfifo_result(0, 0).is_ok());
    assert_eq!(mkfifo_result(-1, 13), Err(FifoCreateError::PermissionDenied));
    assert_eq!(mkfifo_result(-1, 17), Err(FifoCreateError::AlreadyExists));
    assert_eq!(mkfifo_result(-1, 2), Err(FifoCreateError::NotFound));
    assert_eq!(mkfifo_result(-1, 22), Err(FifoCreateError::Other));
}

#[test]
fn enabled_outputs_counts_only_enabled() {
    let s = source(
        "/tmp/t/a",
        true,
        vec![out("/tmp/t/b", false), out("/tmp/t/c", true), out("/tmp/t/d", true)],
    );
    assert_eq!(s.enabled_outputs(), 2);
    assert!(s.wants_reader());
}

#[test]
fn no_reader_for_disabled_or_empty_inputs() {
    let disabled = source("/tmp/t/a", false, vec![out("/tmp/t/b", true)]);
    assert!(!disabled.wants_reader());

    let all_outputs_disabled = source("/tmp/t/a", true, vec![out("/tmp/t/b", false)]);
    assert!(!all_outputs_disabled.wants_reader());

    let no_outputs = source("/tmp/t/a", true, vec![]);
    assert!(!no_outputs.wants_reader());

    let entries = vec![
        source("/tmp/t/a", false, vec![out("/tmp/t/b", true)]),
        source("/tmp/t/c", true, vec![out("/tmp/t/d", true)]),
        source("/tmp/t/e", true, vec![]),
    ];
    let readers = create_readers(entries, &Signal::new_run());
    assert_eq!(readers.len(), 1);
    assert_eq!(readers[0].config.pipe, "/tmp/t/c");
}

#[test]
fn one_writer_per_enabled_output() {
    let s = source("/tmp/t/a", true, vec![out("/tmp/t/b", false), out("/tmp/t/c", true)]);
    let mut reader = Reader::new(Signal::new_run(), s);
    let mut writers = reader.start_write_channels();
    assert_eq!(writers.len(), 1);
    assert_eq!(writers[0].config.pipe, "/tmp/t/c");
    assert!(!writers[0].ignore_first_message);

    // The line still reaches the one enabled destination.
    reader.open_writing_pipes();
    reader.send_message(String::from("y\n"));
    assert_eq!(writers[0].drain_step(), DrainStep::Write(String::from("y\n")));
}

#[test]
fn writers_start_parked() {
    let s = source("/tmp/t/a", true, vec![out("/tmp/t/b", true)]);
    let mut reader = Reader::new(Signal::new_run(), s);
    let mut writers = reader.start_write_channels();
    // The group's writer-state starts at close: the writer holds no pipe.
    assert!(writers[0].should_close_pipe());
    assert_eq!(writers[0].idle_step(), IdleStep::Sleep);
    assert_eq!(writers[0].drain_step(), DrainStep::ClosePipe);

    reader.open_writing_pipes();
    assert!(!writers[0].should_close_pipe());
    assert_eq!(writers[0].idle_step(), IdleStep::Open);

    reader.close_writing_pipes();
    assert_eq!(writers[0].idle_step(), IdleStep::Sleep);
}

#[test]
fn open_and_create_decisions() {
    let s = source("/tmp/t/a", true, vec![out("/tmp/t/b", true)]);
    let mut reader = Reader::new(Signal::new_run(), s);
    let writers = reader.start_write_channels();
    let w = &writers[0];

    assert_eq!(w.create_step(&Ok(())), CreateStep::Proceed);
    assert_eq!(w.create_step(&Err(FifoCreateError::AlreadyExists)), CreateStep::Proceed);
    assert_eq!(w.create_step(&Err(FifoCreateError::PermissionDenied)), CreateStep::Fatal);
    assert_eq!(w.create_step(&Err(FifoCreateError::NotFound)), CreateStep::Retry);
    assert_eq!(w.create_step(&Err(FifoCreateError::Other)), CreateStep::Retry);

    assert_eq!(w.open_step(OpenOutcome::Opened), OpenStep::Drain);
    assert_eq!(w.open_step(OpenOutcome::PermissionDenied), OpenStep::Fatal);
    assert_eq!(w.open_step(OpenOutcome::Failed), OpenStep::Retry);
}

#[test]
fn fan_out_reaches_every_enabled_destination() {
    let s = source("/tmp/t/a", true, vec![out("/tmp/t/b", true), out("/tmp/t/c", true)]);
    let mut reader = Reader::new(Signal::new_run(), s);
    let mut writers = reader.start_write_channels();
    assert_eq!(writers.len(), 2);
    reader.open_writing_pipes();

    reader.send_message(String::from("x\n"));
    assert_eq!(writers[0].drain_step(), DrainStep::Write(String::from("x\n")));
    assert_eq!(writers[1].drain_step(), DrainStep::Write(String::from("x\n")));
}

#[test]
fn handle_read_delivers_and_classifies() {
    let s = source("/tmp/t/a", true, vec![out("/tmp/t/b", true)]);
    let mut reader = Reader::new(Signal::new_run(), s);
    let mut writers = reader.start_write_channels();
    reader.open_writing_pipes();

    assert_eq!(reader.handle_read(ReadOutcome::Line(String::from("hello\n"))), ReadStep::Deliver);
    assert_eq!(writers[0].drain_step(), DrainStep::Write(String::from("hello\n")));
    assert_eq!(reader.handle_read(ReadOutcome::EndOfStream), ReadStep::StopDraining);
    assert_eq!(reader.handle_read(ReadOutcome::WouldBlock), ReadStep::Sleep);
    assert_eq!(reader.handle_read(ReadOutcome::BrokenPipe), ReadStep::Continue);
    assert_eq!(reader.handle_read(ReadOutcome::Failed), ReadStep::Continue);
}

#[test]
fn slow_consumer_loses_lines_but_disturbs_nobody() {
    let s = source("/tmp/t/a", true, vec![out("/tmp/t/b", true), out("/tmp/t/c", true)]);
    let mut reader = Reader::new(Signal::new_run(), s);
    let mut writers = reader.start_write_channels();
    reader.open_writing_pipes();
    let mut c = writers.pop().unwrap();
    let mut b = writers.pop().unwrap();

    // b's consumer never drains; c is drained after every line.
    for i in 0..1000 {
        reader.send_message(format!("line{}\n", i));
        assert_eq!(c.drain_step(), DrainStep::Write(format!("line{}\n", i)));
    }

    // b's capacity-one channel kept the first line and dropped the rest.
    assert_eq!(b.drain_step(), DrainStep::Write(String::from("line0\n")));
    assert_eq!(b.drain_step(), DrainStep::Sleep);
}

#[test]
fn broken_pipe_arms_latch_and_drops_next_line() {
    let s = source("/tmp/t/a", true, vec![out("/tmp/t/b", true)]);
    let mut reader = Reader::new(Signal::new_run(), s);
    let mut writers = reader.start_write_channels();
    reader.open_writing_pipes();
    let w = &mut writers[0];

    // A write fails with a broken pipe: reopen, latch armed.
    assert_eq!(w.after_write(WriteOutcome::BrokenPipe), AfterWrite::Reopen);
    assert!(w.ignore_first_message);

    // The next line out of the channel is discarded; the one after flows.
    reader.send_message(String::from("m2\n"));
    assert_eq!(w.drain_step(), DrainStep::Skip);
    assert!(!w.ignore_first_message);
    reader.send_message(String::from("m3\n"));
    assert_eq!(w.drain_step(), DrainStep::Write(String::from("m3\n")));

    // Ordinary failures do not arm the latch.
    assert_eq!(w.after_write(WriteOutcome::Failed), AfterWrite::Continue);
    assert!(!w.ignore_first_message);
    assert_eq!(w.after_write(WriteOutcome::Done), AfterWrite::Continue);
    assert!(!w.ignore_first_message);
}

#[test]
fn dead_destination_is_marked_and_skipped() {
    let s = source("/tmp/t/a", true, vec![out("/tmp/t/b", true), out("/tmp/t/c", true)]);
    let mut reader = Reader::new(Signal::new_run(), s);
    let mut writers = reader.start_write_channels();
    reader.open_writing_pipes();

    // b's writer is gone for good.
    let c = writers.pop().unwrap();
    let b = writers.pop().unwrap();
    drop(b);

    reader.send_message(String::from("x\n"));
    assert!(reader.send_channels[0].disconnected);
    assert!(!reader.send_channels[1].disconnected);

    // Later lines still reach c; b stays marked.
    reader.send_message(String::from("y\n"));
    assert!(reader.send_channels[0].disconnected);
    drop(c);
}

#[test]
fn writer_stops_when_reader_is_gone() {
    let s = source("/tmp/t/a", true, vec![out("/tmp/t/b", true)]);
    let mut reader = Reader::new(Signal::new_run(), s);
    let mut writers = reader.start_write_channels();
    reader.open_writing_pipes();
    drop(reader);

    // The channel is closed and the writer-state no longer moves: the
    // writer's next drain decision is to stop.
    assert_eq!(writers[0].drain_step(), DrainStep::Stop);
}

#[test]
fn shutdown_cascade_stops_every_task() {
    let s = source("/tmp/t/a", true, vec![out("/tmp/t/b", true), out("/tmp/t/c", true)]);
    let global = Signal::new_run();
    let mut reader = Reader::new(global.duplicate(), s);
    let mut writers = reader.start_write_channels();
    reader.open_writing_pipes();
    assert!(!reader.should_stop());
    assert!(!writers[0].should_stop());

    // The supervisor publishes exit; the reader observes it and stops its
    // writers; every writer decision is then to stop.
    global.request_exit();
    assert!(reader.should_stop());
    reader.stop_writers();
    for w in writers.iter_mut() {
        assert!(w.should_stop());
        assert_eq!(w.idle_step(), IdleStep::Stop);
        assert_eq!(w.drain_step(), DrainStep::Stop);
    }

    // Exit is final: a later wake request changes nothing.
    reader.open_writing_pipes();
    assert!(writers[0].should_stop());
    assert_eq!(writers[0].idle_step(), IdleStep::Stop);
}
