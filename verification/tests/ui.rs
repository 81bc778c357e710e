use rusty_pomodoro::communication::{ConcReceiver, ConcSender, PomodoroChannel, UIChannel};
use rusty_pomodoro::output::MessageLog;
use rusty_pomodoro::pomodoro::PomodoroStates;
use rusty_pomodoro::uimessages::UIMessages;
use rusty_pomodoro::userinterface::UserInterface;
use std::sync::mpsc::{channel, RecvError};

#[test]
fn starting_shows_summary_announcement_and_prompt() {
    let mut ui = UserInterface::new(MessageLog::new());
    ui.start(3);
    let messages = &ui.output.messages;
    assert_eq!(messages.len(), 3);
    match &messages[0] {
        UIMessages::SummaryMessage(text) => {
            assert_eq!(text, "You have finished 3 pomodoros today.")
        }
        _ => panic!("expected the summary first"),
    }
    match &messages[1] {
        UIMessages::StateMessage(text) => assert_eq!(text, "Starting a new pomodoro."),
        _ => panic!("expected the announcement second"),
    }
    assert!(matches!(messages[2], UIMessages::InputMessage()));
}

#[test]
fn starting_sends_the_first_advance_request() {
    let mut ui = UserInterface::new(MessageLog::new());
    let request_receiver = ui.chan_sender();
    ui.start(0);
    assert!(matches!(request_receiver.recv(), Ok(UIChannel::Proceed)));
}

#[test]
fn ticks_are_rendered_as_progress_lines() {
    let mut ui = UserInterface::new(MessageLog::new());
    let (sender, receiver) = channel();
    ui.register_receiver(receiver);
    sender.send(PomodoroChannel::Update(120)).unwrap();
    sender.send(PomodoroChannel::Update(61)).unwrap();
    sender.send(PomodoroChannel::Update(60)).unwrap();
    sender.send(PomodoroChannel::Update(2)).unwrap();
    drop(sender);
    while ui.listening_loop() {}
    let expected = vec![
        "2 minutes remaining",
        "2 minutes remaining",
        "60 seconds remaining",
        "2 seconds remaining",
    ];
    assert_eq!(ui.output.messages.len(), expected.len());
    for (message, wanted) in ui.output.messages.iter().zip(expected.iter()) {
        match message {
            UIMessages::ProgressMessage(text) => assert_eq!(text, wanted),
            _ => panic!("expected only progress lines"),
        }
    }
}

#[test]
fn a_completion_asks_for_the_next_acknowledgment() {
    let mut ui = UserInterface::new(MessageLog::new());
    let (sender, receiver) = channel();
    ui.register_receiver(receiver);
    let request_receiver = ui.chan_sender();
    sender
        .send(PomodoroChannel::Completed(PomodoroStates::LongBreak, 4))
        .unwrap();
    drop(sender);
    while ui.listening_loop() {}
    let messages = &ui.output.messages;
    assert_eq!(messages.len(), 3);
    match &messages[0] {
        UIMessages::SummaryMessage(text) => {
            assert_eq!(text, "You have finished 4 pomodoros today.")
        }
        _ => panic!("expected the summary first"),
    }
    match &messages[1] {
        UIMessages::StateMessage(text) => assert_eq!(text, "Let's have a long break."),
        _ => panic!("expected the announcement second"),
    }
    assert!(matches!(messages[2], UIMessages::InputMessage()));
    assert!(matches!(request_receiver.recv(), Ok(UIChannel::Proceed)));
}

#[test]
fn dispatching_events_directly_drives_the_interface() {
    let mut ui = UserInterface::new(MessageLog::new());
    assert!(ui.handle_engine_event(Ok(PomodoroChannel::Update(30))));
    assert_eq!(ui.output.messages.len(), 1);
    match &ui.output.messages[0] {
        UIMessages::ProgressMessage(text) => assert_eq!(text, "30 seconds remaining"),
        _ => panic!("expected a progress line"),
    }
    assert!(ui.handle_engine_event(Ok(PomodoroChannel::Completed(
        PomodoroStates::ShortBreak,
        1
    ))));
    assert_eq!(ui.output.messages.len(), 4);
    match &ui.output.messages[2] {
        UIMessages::StateMessage(text) => assert_eq!(text, "Let's have a short break."),
        _ => panic!("expected the announcement"),
    }
    assert!(!ui.handle_engine_event(Err(RecvError)));
    assert_eq!(ui.output.messages.len(), 4);
}

#[test]
fn listening_stops_without_a_wired_channel() {
    let mut ui = UserInterface::new(MessageLog::new());
    assert!(!ui.listening_loop());
    assert_eq!(ui.output.messages.len(), 0);
}
