use rusty_pomodoro::communication::{ConcReceiver, ConcSender, PomodoroChannel, UIChannel};
use rusty_pomodoro::observers::{NotificationLog, UpdateLog};
use rusty_pomodoro::pomodoro::{Pomodoro, PomodoroConfig, PomodoroStates};
use std::sync::mpsc::{channel, RecvError};

fn pom_config(pomodoro_secs: u64) -> PomodoroConfig {
    PomodoroConfig {
        pomodoro_time_in_secs: pomodoro_secs,
        short_break_time_in_secs: 0,
        long_break_time_in_secs: 0,
    }
}

#[test]
fn updates_are_sent_correctly() {
    let mut pom: Pomodoro<NotificationLog, UpdateLog> = Pomodoro::new(pom_config(12));
    let (sender, receiver) = channel();
    pom.register_receiver(receiver);
    let pom_receiver = pom.chan_sender();
    sender.send(UIChannel::Proceed).unwrap();
    drop(sender);
    while pom.listen_loop() {}
    let mut actual_results: Vec<u64> = vec![];
    for _ in 0..3 {
        match pom_receiver.recv().unwrap() {
            PomodoroChannel::Update(remaining_secs) => actual_results.push(remaining_secs),
            PomodoroChannel::Completed(_next_state, _finished_pomodoros) => (),
        }
    }
    assert_eq!(actual_results[0], 12 as u64);
    assert_eq!(actual_results[1], 7 as u64);
    assert_eq!(actual_results[2], 2 as u64);
}

#[test]
fn each_cycle_ends_with_one_completion_event() {
    let mut pom: Pomodoro<NotificationLog, UpdateLog> = Pomodoro::new(pom_config(12));
    let (sender, receiver) = channel();
    pom.register_receiver(receiver);
    let pom_receiver = pom.chan_sender();
    sender.send(UIChannel::Proceed).unwrap();
    sender.send(UIChannel::Proceed).unwrap();
    drop(sender);
    while pom.listen_loop() {}
    drop(pom);
    // the pomodoro interval: strictly decreasing ticks, then its completion
    let mut events: Vec<PomodoroChannel> = vec![];
    while let Ok(event) = pom_receiver.recv() {
        events.push(event);
    }
    assert_eq!(events.len(), 6);
    assert!(matches!(events[0], PomodoroChannel::Update(12)));
    assert!(matches!(events[1], PomodoroChannel::Update(7)));
    assert!(matches!(events[2], PomodoroChannel::Update(2)));
    assert!(matches!(
        events[3],
        PomodoroChannel::Completed(PomodoroStates::ShortBreak, 1)
    ));
    // the short break: one tick for its whole (zero) duration, then its
    // completion, scheduling the next pomodoro without a new count
    assert!(matches!(events[4], PomodoroChannel::Update(0)));
    assert!(matches!(
        events[5],
        PomodoroChannel::Completed(PomodoroStates::Pomodoro, 1)
    ));
}

#[test]
fn cancel_is_accepted_and_changes_nothing() {
    let mut pom: Pomodoro<NotificationLog, UpdateLog> = Pomodoro::new(pom_config(0));
    let (sender, receiver) = channel();
    pom.register_receiver(receiver);
    sender.send(UIChannel::Cancel).unwrap();
    sender.send(UIChannel::Proceed).unwrap();
    sender.send(UIChannel::Cancel).unwrap();
    drop(sender);
    while pom.listen_loop() {}
    assert_eq!(pom.finished_pomodoros, 1);
    assert_eq!(pom.next_state, PomodoroStates::ShortBreak);
}

#[test]
fn resumed_engine_completion_reports_thirteen() {
    let mut pom: Pomodoro<NotificationLog, UpdateLog> =
        Pomodoro::continue_from(12, pom_config(0));
    let (sender, receiver) = channel();
    pom.register_receiver(receiver);
    let pom_receiver = pom.chan_sender();
    sender.send(UIChannel::Proceed).unwrap();
    drop(sender);
    while pom.listen_loop() {}
    drop(pom);
    let mut completions: Vec<(PomodoroStates, u32)> = vec![];
    while let Ok(event) = pom_receiver.recv() {
        if let PomodoroChannel::Completed(next_state, finished) = event {
            completions.push((next_state, finished));
        }
    }
    assert_eq!(completions, vec![(PomodoroStates::ShortBreak, 13)]);
}

#[test]
fn a_saturated_counter_stops_the_loop_instead_of_overflowing() {
    let mut pom: Pomodoro<NotificationLog, UpdateLog> =
        Pomodoro::continue_from(u32::MAX, pom_config(0));
    let (sender, receiver) = channel();
    pom.register_receiver(receiver);
    sender.send(UIChannel::Proceed).unwrap();
    drop(sender);
    while pom.listen_loop() {}
    assert_eq!(pom.finished_pomodoros, u32::MAX);
    assert_eq!(pom.next_state, PomodoroStates::Pomodoro);
}

#[test]
fn dispatching_requests_directly_drives_the_engine() {
    let mut pom: Pomodoro<NotificationLog, UpdateLog> = Pomodoro::new(pom_config(0));
    assert!(pom.handle_advance_request(Ok(UIChannel::Cancel)));
    assert_eq!(pom.finished_pomodoros, 0);
    assert_eq!(pom.next_state, PomodoroStates::Pomodoro);
    assert!(pom.handle_advance_request(Ok(UIChannel::Proceed)));
    assert_eq!(pom.finished_pomodoros, 1);
    assert_eq!(pom.next_state, PomodoroStates::ShortBreak);
    assert!(!pom.handle_advance_request(Err(RecvError)));
    assert_eq!(pom.finished_pomodoros, 1);
    assert_eq!(pom.next_state, PomodoroStates::ShortBreak);
}

#[test]
fn wiring_the_outbound_channel_sets_the_sender() {
    let mut pom: Pomodoro<NotificationLog, UpdateLog> = Pomodoro::new(pom_config(0));
    assert!(pom.pom_sender.is_none());
    let _receiver = pom.chan_sender();
    assert!(pom.pom_sender.is_some());
    assert!(pom.ui_receiver.is_none());
}

#[test]
fn listening_stops_when_no_channel_is_wired() {
    let mut pom: Pomodoro<NotificationLog, UpdateLog> = Pomodoro::new(pom_config(0));
    assert!(!pom.listen_loop());
    assert_eq!(pom.finished_pomodoros, 0);
}
