use alsa_bridge::buffer::BufferedWriter;
use alsa_bridge::buffer::DeviceStep;
use alsa_bridge::buffer::DrainStatus;
use alsa_bridge::buffer::StreamError;
use alsa_bridge::buffer::HIGH_WATER_MARK;
use alsa_bridge::poll::interest_from_events;
use alsa_bridge::poll::synth_revents;
use alsa_bridge::poll::Interest;
use alsa_bridge::poll::POLL_IN;
use alsa_bridge::writer::attempt_plan;
use alsa_bridge::writer::WriteAttemptResult;
use alsa_bridge::poll::SemanticFlags;

fn writer_with(samples: &[f32]) -> BufferedWriter<f32> {
    let mut w: BufferedWriter<f32> = BufferedWriter::new();
    for &s in samples {
        w.send(s).unwrap();
    }
    w
}

#[test]
fn send_appends_in_order() {
    let w = writer_with(&[1.0, 2.0, 3.0]);
    assert_eq!(w.len(), 3);
    assert_eq!(w.take_prefix(3), vec![1.0, 2.0, 3.0]);
}

#[test]
fn needs_drain_at_high_water_mark() {
    let mut w: BufferedWriter<f32> = BufferedWriter::new();
    for i in 0..HIGH_WATER_MARK - 1 {
        w.send(i as f32).unwrap();
    }
    assert!(!w.needs_drain());
    w.send(0.0).unwrap();
    assert!(w.needs_drain());
}

#[test]
fn flush_delivers_all_in_order() {
    // Sends followed by a flush: the device receives exactly the enqueued
    // samples, in order, in write calls whose sizes sum to the total.
    let mut w = writer_with(&[1.0, 2.0, 3.0]);
    let r = w.flush(&vec![DeviceStep::Accept(2), DeviceStep::Accept(5)]);
    assert_eq!(r.status, DrainStatus::Completed);
    assert_eq!(r.cycles, 2);
    assert_eq!(r.writes, vec![vec![1.0, 2.0], vec![3.0]]);
    assert!(w.is_empty());
}

#[test]
fn ready_drains_to_below_high_water_mark() {
    // 70000 queued, the device reports OUT=true with 50000 frames of room:
    // one cycle consumes 50000 and ready returns with 20000 < 65536 left.
    let mut w: BufferedWriter<f32> = BufferedWriter::new();
    for i in 0..70000 {
        w.send(i as f32).unwrap();
    }
    let r = w.ready(&vec![DeviceStep::Accept(50000)]);
    assert_eq!(r.status, DrainStatus::Completed);
    assert_eq!(r.cycles, 1);
    assert_eq!(r.writes.len(), 1);
    assert_eq!(r.writes[0].len(), 50000);
    assert_eq!(r.writes[0][0], 0.0);
    assert_eq!(r.writes[0][49999], 49999.0);
    assert_eq!(w.len(), 20000);
    assert!(w.len() < HIGH_WATER_MARK);
}

#[test]
fn readable_wakeup_not_writable_issues_no_write() {
    // The device requested a READABLE-only wait and the wakeup reported
    // raw POLLIN, but the remapped readiness says OUT=false: the writer
    // reports not-ready, no write call is issued, the queue is unchanged.
    assert_eq!(interest_from_events(POLL_IN), Some(Interest::Readable));
    assert_eq!(synth_revents(Interest::Readable), POLL_IN);
    let reported = SemanticFlags { input: false, output: false, error: false };
    assert_eq!(attempt_plan(reported, 4096, 70000), None);

    let mut w: BufferedWriter<f32> = BufferedWriter::new();
    for i in 0..70000 {
        w.send(i as f32).unwrap();
    }
    let r = w.ready(&vec![DeviceStep::NotReady]);
    assert_eq!(r.status, DrainStatus::Exhausted);
    assert_eq!(r.cycles, 1);
    assert!(r.writes.is_empty());
    assert_eq!(w.len(), 70000);
}

#[test]
fn zero_progress_cycle_removes_nothing() {
    // Consumed(0) on a device with no room: no queued item is removed and
    // the drain goes on without error.
    let mut w = writer_with(&[1.0, 2.0, 3.0, 4.0, 5.0]);
    let r = w.flush(&vec![DeviceStep::Accept(0), DeviceStep::Accept(10)]);
    assert_eq!(r.status, DrainStatus::Completed);
    assert_eq!(r.cycles, 2);
    assert_eq!(r.writes, vec![vec![], vec![1.0, 2.0, 3.0, 4.0, 5.0]]);
    assert!(w.is_empty());
}

#[test]
fn record_zero_consumed_is_not_an_error() {
    let mut w = writer_with(&[1.0, 2.0]);
    assert_eq!(w.record_write(WriteAttemptResult::Consumed(0)), Ok(()));
    assert_eq!(w.len(), 2);
}

#[test]
fn record_not_ready_changes_nothing() {
    let mut w = writer_with(&[1.0, 2.0]);
    assert_eq!(w.record_write(WriteAttemptResult::NotReady), Ok(()));
    assert_eq!(w.len(), 2);
}

#[test]
fn record_consumed_removes_front() {
    let mut w = writer_with(&[1.0, 2.0, 3.0]);
    assert_eq!(w.record_write(WriteAttemptResult::Consumed(2)), Ok(()));
    assert_eq!(w.len(), 1);
    assert_eq!(w.take_prefix(1), vec![3.0]);
}

#[test]
fn fatal_write_propagates_and_leaves_queue() {
    let mut w = writer_with(&[1.0, 2.0, 3.0, 4.0, 5.0]);
    let r = w.flush(&vec![DeviceStep::Accept(2), DeviceStep::Fault]);
    assert_eq!(r.status, DrainStatus::Faulted);
    assert_eq!(r.cycles, 2);
    assert_eq!(r.writes, vec![vec![1.0, 2.0]]);
    assert_eq!(w.len(), 3);
    assert_eq!(w.take_prefix(3), vec![3.0, 4.0, 5.0]);
}

#[test]
fn record_fatal_reports_write_fault() {
    let mut w = writer_with(&[1.0]);
    assert_eq!(w.record_write(WriteAttemptResult::Fatal), Err(StreamError::WriteFault));
    assert_eq!(w.len(), 1);
}

#[test]
fn ready_returns_immediately_below_high_water_mark() {
    // The goal already holds: no write cycle is spent, even though the
    // script would have faulted.
    let mut w = writer_with(&[1.0, 2.0, 3.0]);
    let r = w.ready(&vec![DeviceStep::Fault]);
    assert_eq!(r.status, DrainStatus::Completed);
    assert_eq!(r.cycles, 0);
    assert!(r.writes.is_empty());
    assert_eq!(w.len(), 3);
}

#[test]
fn ready_exhausts_script_above_high_water_mark() {
    let mut w: BufferedWriter<f32> = BufferedWriter::new();
    for i in 0..HIGH_WATER_MARK {
        w.send(i as f32).unwrap();
    }
    let r = w.ready(&vec![]);
    assert_eq!(r.status, DrainStatus::Exhausted);
    assert_eq!(r.cycles, 0);
    assert_eq!(w.len(), HIGH_WATER_MARK);
}

#[test]
fn close_on_empty_queue_returns_immediately() {
    // close() on an empty queue: zero write cycles, and the writer is
    // closed from then on.
    let mut w: BufferedWriter<f32> = BufferedWriter::new();
    let r = w.close(&vec![]);
    assert_eq!(r.status, DrainStatus::Completed);
    assert_eq!(r.cycles, 0);
    assert!(r.writes.is_empty());
    assert!(w.closed());
}

#[test]
fn send_after_close_is_rejected() {
    let mut w: BufferedWriter<f32> = BufferedWriter::new();
    w.close(&vec![]);
    assert_eq!(w.send(1.0), Err(StreamError::Closed));
    assert_eq!(w.len(), 0);
}

#[test]
fn close_drains_then_closes() {
    let mut w = writer_with(&[1.0, 2.0, 3.0]);
    let r = w.close(&vec![DeviceStep::NotReady, DeviceStep::Accept(100)]);
    assert_eq!(r.status, DrainStatus::Completed);
    assert_eq!(r.cycles, 2);
    assert_eq!(r.writes, vec![vec![1.0, 2.0, 3.0]]);
    assert!(w.is_empty());
    assert!(w.closed());
}

#[test]
fn incomplete_close_stays_open() {
    let mut w = writer_with(&[1.0, 2.0, 3.0]);
    let r = w.close(&vec![DeviceStep::NotReady]);
    assert_eq!(r.status, DrainStatus::Exhausted);
    assert!(!w.closed());
    assert_eq!(w.len(), 3);
    assert_eq!(w.send(4.0), Ok(()));
}

#[test]
fn finish_close_marks_closed() {
    let mut w: BufferedWriter<f32> = BufferedWriter::new();
    w.finish_close();
    assert!(w.closed());
    assert_eq!(w.send(1.0), Err(StreamError::Closed));
}
