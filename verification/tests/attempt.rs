use alsa_bridge::poll::SemanticFlags;
use alsa_bridge::writer::attempt_outcome;
use alsa_bridge::writer::attempt_plan;
use alsa_bridge::writer::WriteAttemptResult;

fn output_ready() -> SemanticFlags {
    SemanticFlags { input: false, output: true, error: false }
}

fn not_output_ready() -> SemanticFlags {
    SemanticFlags { input: true, output: false, error: false }
}

#[test]
fn no_write_when_not_output_ready() {
    // Remapped OUT=false: no write may be issued, whatever room the
    // device reports.
    assert_eq!(attempt_plan(not_output_ready(), 50000, 70000), None);
}

#[test]
fn plan_caps_at_available_frames() {
    assert_eq!(attempt_plan(output_ready(), 50000, 70000), Some(50000));
}

#[test]
fn plan_caps_at_candidate_count() {
    assert_eq!(attempt_plan(output_ready(), 70000, 50), Some(50));
}

#[test]
fn plan_zero_when_no_room() {
    // Zero available frames plan a zero-length write: legal zero progress.
    assert_eq!(attempt_plan(output_ready(), 0, 123), Some(0));
}

#[test]
fn outcome_not_ready_without_plan() {
    assert_eq!(attempt_outcome(None, true), WriteAttemptResult::NotReady);
    assert_eq!(attempt_outcome(None, false), WriteAttemptResult::NotReady);
}

#[test]
fn outcome_consumes_planned_count_on_success() {
    assert_eq!(attempt_outcome(Some(5), true), WriteAttemptResult::Consumed(5));
}

#[test]
fn outcome_fatal_on_rejected_write() {
    assert_eq!(attempt_outcome(Some(5), false), WriteAttemptResult::Fatal);
}
