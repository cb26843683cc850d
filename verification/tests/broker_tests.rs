use socket_broker::{SocketProtector, Worker};
use std::sync::atomic::{AtomicUsize, Ordering};

fn drive<F: Fn(i32) -> bool + Copy>(worker: Worker, host_call: F) {
    while worker.should_run() {
        if !worker.handle_protect_socket_request(host_call) {
            break;
        }
    }
}

#[test]
fn invalid_descriptors_rejected_without_worker() {
    let protector = SocketProtector::init();
    assert_eq!(protector.protect_socket(-1), false);
    assert_eq!(protector.protect_socket(0), false);
    assert_eq!(protector.protect_socket(i32::MIN), false);
    protector.release();
}

#[test]
fn protect_before_start_fails_fast() {
    let protector = SocketProtector::init();
    assert_eq!(protector.protect_socket(5), false);
    protector.release();
}

#[test]
fn scenario_protect_with_stubbed_host() {
    let host_calls = AtomicUsize::new(0);
    let mut protector = SocketProtector::init();
    let worker = protector.start();
    crossbeam::thread::scope(|s| {
        let host = |_d: i32| {
            host_calls.fetch_add(1, Ordering::SeqCst);
            true
        };
        s.spawn(move |_| drive(worker, host));
        assert_eq!(protector.protect_socket(5), true);
        assert_eq!(host_calls.load(Ordering::SeqCst), 1);
        assert_eq!(protector.protect_socket(-1), false);
        assert_eq!(protector.protect_socket(0), false);
        // The two invalid descriptors never reached the host call.
        assert_eq!(host_calls.load(Ordering::SeqCst), 1);
        protector.stop();
        let calls_after_stop = host_calls.load(Ordering::SeqCst);
        assert_eq!(protector.protect_socket(9), false);
        assert_eq!(host_calls.load(Ordering::SeqCst), calls_after_stop);
        protector.release();
    })
    .unwrap();
}

#[test]
fn host_verdict_propagates_to_caller() {
    let mut protector = SocketProtector::init();
    let worker = protector.start();
    crossbeam::thread::scope(|s| {
        let host = |d: i32| d % 2 == 0;
        s.spawn(move |_| drive(worker, host));
        assert_eq!(protector.protect_socket(1), false);
        assert_eq!(protector.protect_socket(4), true);
        assert_eq!(protector.protect_socket(5), false);
        assert_eq!(protector.protect_socket(6), true);
        assert_eq!(protector.protect_socket(i32::MAX), false);
        assert_eq!(protector.protect_socket(i32::MAX - 1), true);
        protector.stop();
        protector.release();
    })
    .unwrap();
}

#[test]
fn host_error_resolves_to_false() {
    // A host-side error is absorbed by the host call and surfaces as false.
    let mut protector = SocketProtector::init();
    let worker = protector.start();
    crossbeam::thread::scope(|s| {
        let host = |_d: i32| false;
        s.spawn(move |_| drive(worker, host));
        assert_eq!(protector.protect_socket(5), false);
        protector.stop();
        protector.release();
    })
    .unwrap();
}

#[test]
fn concurrent_callers_get_their_own_replies() {
    let mut protector = SocketProtector::init();
    let worker = protector.start();
    crossbeam::thread::scope(|s| {
        let host = |d: i32| d % 3 == 0;
        s.spawn(move |_| drive(worker, host));
        let protector_ref = &protector;
        crossbeam::thread::scope(|inner| {
            for d in 1..=8i32 {
                inner.spawn(move |_| {
                    assert_eq!(protector_ref.protect_socket(d), d % 3 == 0);
                });
            }
        })
        .unwrap();
        protector.stop();
        protector.release();
    })
    .unwrap();
}

#[test]
fn stop_joins_worker_and_restart_spins_a_new_one() {
    let host_calls = AtomicUsize::new(0);
    let host = |_d: i32| {
        host_calls.fetch_add(1, Ordering::SeqCst);
        true
    };
    let mut protector = SocketProtector::init();
    let worker = protector.start();
    crossbeam::thread::scope(|s| {
        let handle = s.spawn(move |_| drive(worker, host));
        assert_eq!(protector.protect_socket(7), true);
        protector.stop();
        // stop returned only after the worker loop exited, so joining the
        // worker thread cannot block.
        handle.join().unwrap();
        let calls_after_stop = host_calls.load(Ordering::SeqCst);
        // A stopped broker answers without the worker.
        assert_eq!(protector.protect_socket(7), false);
        assert_eq!(host_calls.load(Ordering::SeqCst), calls_after_stop);

        // A second start commissions a fresh worker that serves again.
        let worker = protector.start();
        s.spawn(move |_| drive(worker, host));
        assert_eq!(protector.protect_socket(11), true);
        assert!(host_calls.load(Ordering::SeqCst) > calls_after_stop);
        protector.stop();
        protector.release();
    })
    .unwrap();
}

#[test]
fn worker_survives_abandoned_reply_channel() {
    // The poison request that `stop` submits carries a reply channel nobody
    // reads; delivering into it fails, and the worker must shrug that off
    // and exit cleanly rather than die mid-loop.
    let mut protector = SocketProtector::init();
    let worker = protector.start();
    crossbeam::thread::scope(|s| {
        let host = |_d: i32| true;
        s.spawn(move |_| drive(worker, host));
        assert_eq!(protector.protect_socket(3), true);
        protector.stop();
        protector.release();
    })
    .unwrap();
}
