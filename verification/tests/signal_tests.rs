use std::sync::{Arc, Mutex};

use trussed_usbip::{driver_step, DriverAction, SignalChannel};

#[test]
fn new_channel_is_empty() {
    let channel = SignalChannel::new();
    assert_eq!(channel.sent(), 0);
    assert_eq!(channel.drained(), 0);
    assert_eq!(channel.pending(), 0);
}

#[test]
fn waiting_on_an_empty_channel_takes_nothing() {
    let mut channel = SignalChannel::new();
    assert!(!channel.wait_for_next());
    assert!(!channel.wait_for_next());
    assert_eq!(channel.sent(), 0);
    assert_eq!(channel.drained(), 0);
}

#[test]
fn each_notification_is_taken_out_once() {
    let mut channel = SignalChannel::new();
    channel.notify();
    channel.notify();
    channel.notify();
    assert_eq!(channel.sent(), 3);
    assert_eq!(channel.pending(), 3);
    assert!(channel.wait_for_next());
    assert_eq!(channel.pending(), 2);
    assert_eq!(channel.drained(), 1);
    assert!(channel.wait_for_next());
    assert!(channel.wait_for_next());
    assert!(!channel.wait_for_next());
    assert_eq!(channel.sent(), 3);
    assert_eq!(channel.drained(), 3);
    assert_eq!(channel.pending(), 0);
}

#[test]
fn two_cloned_handles_give_two_notifications() {
    let channel = Arc::new(Mutex::new(SignalChannel::new()));
    let first = Arc::clone(&channel);
    let second = Arc::clone(&channel);
    second.lock().unwrap().notify();
    first.lock().unwrap().notify();

    let mut consumer = channel.lock().unwrap();
    assert_eq!(consumer.pending(), 2);
    assert!(consumer.wait_for_next());
    assert!(consumer.wait_for_next());
    assert!(!consumer.wait_for_next());
    assert_eq!(consumer.drained(), 2);
}

#[test]
fn driver_runs_one_pass_for_each_signal() {
    let mut channel = SignalChannel::new();
    let signals = 17u64;
    for _ in 0..signals {
        channel.notify();
    }
    let mut passes = 0u64;
    while driver_step(&mut channel) == DriverAction::Process {
        passes += 1;
    }
    assert_eq!(passes, signals);
    assert_eq!(channel.pending(), 0);
    assert_eq!(driver_step(&mut channel), DriverAction::Suspend);
}

#[test]
fn driver_never_runs_without_a_signal() {
    let mut channel = SignalChannel::new();
    for _ in 0..10 {
        assert_eq!(driver_step(&mut channel), DriverAction::Suspend);
    }
    assert_eq!(channel.drained(), 0);
}

#[test]
fn one_signal_gives_one_pass() {
    let mut channel = SignalChannel::new();
    channel.notify();
    assert_eq!(driver_step(&mut channel), DriverAction::Process);
    assert_eq!(driver_step(&mut channel), DriverAction::Suspend);
}

#[test]
fn interleaved_signals_and_steps_lose_nothing() {
    let mut channel = SignalChannel::new();
    let mut passes = 0u64;
    let mut sent = 0u64;
    let mut last_drained = 0u64;
    for round in 0..50u64 {
        for _ in 0..(round % 3) {
            channel.notify();
            sent += 1;
        }
        if driver_step(&mut channel) == DriverAction::Process {
            passes += 1;
        }
        assert!(channel.drained() >= last_drained);
        last_drained = channel.drained();
        assert_eq!(channel.drained() + channel.pending(), channel.sent());
    }
    while driver_step(&mut channel) == DriverAction::Process {
        passes += 1;
    }
    assert_eq!(channel.sent(), sent);
    assert_eq!(passes, sent);
}
