//! Tests of the per-batch delivery state machine: retry termination on a
//! transport that recovers, and the unbounded, delay-free spin on a batch
//! that never builds.

use sunsniff::delivery::deliver_batch;
use sunsniff::delivery::BatchDelivery;
use sunsniff::delivery::BatchPhase;
use sunsniff::delivery::BuildOutcome;
use sunsniff::delivery::SendOutcome;
use sunsniff::delivery::RETRY_DELAY_SECS;

#[test]
fn retry_delay_is_five_seconds() {
    assert_eq!(RETRY_DELAY_SECS, 5);
}

#[test]
fn delivered_first_try_without_waits() {
    let s = deliver_batch(&vec![BuildOutcome::Built], &vec![SendOutcome::Response]);
    assert_eq!(s.phase, BatchPhase::Delivered);
    assert_eq!(s.builds, 1);
    assert_eq!(s.sends, 1);
    assert_eq!(s.waits, 0);
}

#[test]
fn retry_termination_two_failures_then_success() {
    // A transport that fails twice then succeeds: the batch is delivered
    // exactly once, after exactly two waits of the configured delay, and
    // only then does the sink move on.
    let builds = vec![BuildOutcome::Built, BuildOutcome::Built, BuildOutcome::Built];
    let sends = vec![
        SendOutcome::TransportError,
        SendOutcome::TransportError,
        SendOutcome::Response,
    ];
    let s = deliver_batch(&builds, &sends);
    assert_eq!(s.phase, BatchPhase::Delivered);
    assert_eq!(s.sends, 3);
    assert_eq!(s.waits, 2);
    assert_eq!(s.builds, 3);
}

#[test]
fn transport_error_rebuilds_same_batch() {
    // After a transport error the request is rebuilt: with only one build
    // outcome available, the machine is left waiting to build again.
    let s = deliver_batch(&vec![BuildOutcome::Built], &vec![SendOutcome::TransportError]);
    assert_eq!(s.phase, BatchPhase::Building);
    assert_eq!(s.builds, 1);
    assert_eq!(s.sends, 1);
    assert_eq!(s.waits, 1);
}

#[test]
fn build_failure_spins_without_delay() {
    // A batch that never builds is retried in a tight loop: no waits, no
    // sends, no progress, however long it is observed. The script bounds
    // what would otherwise loop forever. This is current behavior, recorded
    // deliberately; it is not the desired one.
    let builds = vec![BuildOutcome::BuildFailed; 1000];
    let s = deliver_batch(&builds, &vec![]);
    assert_eq!(s.phase, BatchPhase::Building);
    assert_eq!(s.builds, 1000);
    assert_eq!(s.sends, 0);
    assert_eq!(s.waits, 0);
}

#[test]
fn build_failures_then_success() {
    // Failed builds are retried at once; a later successful build proceeds
    // to a send, which delivers on the first response.
    let builds = vec![BuildOutcome::BuildFailed, BuildOutcome::BuildFailed, BuildOutcome::Built];
    let s = deliver_batch(&builds, &vec![SendOutcome::Response]);
    assert_eq!(s.phase, BatchPhase::Delivered);
    assert_eq!(s.builds, 3);
    assert_eq!(s.sends, 1);
    assert_eq!(s.waits, 0);
}

#[test]
fn step_functions_track_counters() {
    let mut st = BatchDelivery::new();
    assert_eq!(st.phase, BatchPhase::Building);
    st.on_build(BuildOutcome::BuildFailed);
    assert_eq!(st.phase, BatchPhase::Building);
    assert_eq!(st.builds, 1);
    st.on_build(BuildOutcome::Built);
    assert_eq!(st.phase, BatchPhase::Sending);
    st.on_send(SendOutcome::TransportError);
    assert_eq!(st.phase, BatchPhase::Building);
    assert_eq!(st.waits, 1);
    st.on_build(BuildOutcome::Built);
    st.on_send(SendOutcome::Response);
    assert_eq!(st.phase, BatchPhase::Delivered);
    assert_eq!(st.sends, 2);
    assert_eq!(st.waits, 1);
}
