//! Tests of the distributor over real channels: fan-out completeness,
//! closure ordering, and the documented fail-fast behavior when one sink's
//! channel refuses a send.

use std::sync::Arc;

use sunsniff::distributor::run;
use sunsniff::distributor::Distributor;
use sunsniff::distributor::Phase;
use sunsniff::update::Update;

fn update(ts: i64, device: &str) -> Arc<Update> {
    Arc::new(Update {
        timestamp: ts,
        device_id: device.to_string(),
        fields: vec![],
        values: vec![],
    })
}

#[test]
fn fan_out_completeness() {
    let (mut dist, mut receivers) = Distributor::new(2);
    let updates = vec![update(1, "a"), update(2, "b"), update(3, "c")];
    let r = run(&mut dist, &updates);
    assert!(r.is_ok());
    assert!(matches!(dist.phase, Phase::Done));
    for rx in receivers.iter_mut() {
        for expect in [1i64, 2, 3] {
            let got = rx.try_next().expect("channel must still hold the update");
            let got = got.expect("update expected before closure");
            assert_eq!(got.timestamp, expect);
        }
        // Closure comes only after every update.
        let end = rx.try_next().expect("channel must be closed, not just empty");
        assert!(end.is_none());
    }
}

#[test]
fn closure_ordering_empty_stream() {
    let (mut dist, mut receivers) = Distributor::new(3);
    let r = run(&mut dist, &vec![]);
    assert!(r.is_ok());
    for rx in receivers.iter_mut() {
        let end = rx.try_next().expect("channel must be closed");
        assert!(end.is_none());
    }
}

#[test]
fn fail_fast_stops_all_sinks() {
    // Regression test of the current fail-fast coupling: when one sink's
    // channel refuses a send, delivery stops for every sink, the healthy
    // ones included. This documents present behavior; per-sink isolation
    // would be a deliberate change.
    let (mut dist, mut receivers) = Distributor::new(2);
    // Kill sink 0 by dropping its receiving half before anything is sent.
    let healthy = receivers.pop().unwrap();
    let dead = receivers.pop().unwrap();
    drop(dead);
    let mut healthy = healthy;
    let updates = vec![update(1, "a"), update(2, "b")];
    let e = run(&mut dist, &updates).unwrap_err();
    assert_eq!(e.sink, 0);
    assert_eq!(e.update, 0);
    assert!(matches!(dist.phase, Phase::Failed));
    // The healthy sink received nothing, and was not told the stream ended.
    assert!(healthy.try_next().is_err());
}

#[test]
fn fail_fast_partial_delivery_order() {
    // When the failing sink is not the first, the sinks before it receive
    // the failing update; the ones at or after it do not; nobody is closed.
    let (mut dist, mut receivers) = Distributor::new(2);
    let dead = receivers.pop().unwrap();
    drop(dead);
    let mut healthy = receivers.pop().unwrap();
    let updates = vec![update(7, "a"), update(8, "b")];
    let e = run(&mut dist, &updates).unwrap_err();
    assert_eq!(e.sink, 1);
    assert_eq!(e.update, 0);
    // Sink 0 got the failing update (it comes before the failing sink)...
    let got = healthy.try_next().unwrap().unwrap();
    assert_eq!(got.timestamp, 7);
    // ...but nothing further, and no closure signal.
    assert!(healthy.try_next().is_err());
}

#[test]
fn updates_shared_not_copied() {
    let (mut dist, mut receivers) = Distributor::new(2);
    let u = update(5, "shared");
    let r = run(&mut dist, &vec![u.clone()]);
    assert!(r.is_ok());
    let a = receivers[0].try_next().unwrap().unwrap();
    let b = receivers[1].try_next().unwrap().unwrap();
    // Every sink holds a reference to the one shared update.
    assert!(Arc::ptr_eq(&a, &u));
    assert!(Arc::ptr_eq(&b, &u));
}
