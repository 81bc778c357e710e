use rusty_pomodoro::observers::{NotificationLog, UpdateLog};
use rusty_pomodoro::pomodoro::{Pomodoro, PomodoroConfig, PomodoroStates};

fn zero_time_pom_config() -> PomodoroConfig {
    PomodoroConfig {
        pomodoro_time_in_secs: 0,
        short_break_time_in_secs: 0,
        long_break_time_in_secs: 0,
    }
}

fn zero_time_pomodoro() -> Pomodoro<NotificationLog, UpdateLog> {
    Pomodoro::new(zero_time_pom_config())
}

#[test]
fn state_jumps_from_pomodoro_to_short_break() {
    let mut pom = zero_time_pomodoro();
    pom.proceed();
    assert_eq!(pom.next_state, PomodoroStates::ShortBreak);
    assert_eq!(pom.finished_pomodoros.to_string(), "1");
}

#[test]
fn after_four_pomodoros_come_a_long_break() {
    let mut pom = zero_time_pomodoro();
    let no_of_proceedings_till_long_break = 7;
    for _ in 0..no_of_proceedings_till_long_break {
        pom.proceed();
    }
    assert_eq!(pom.next_state, PomodoroStates::LongBreak);
    assert_eq!(pom.finished_pomodoros, 4);
}

#[test]
fn continue_from_existing_record() {
    let pom: Pomodoro<NotificationLog, UpdateLog> =
        Pomodoro::continue_from(12, zero_time_pom_config());
    assert_eq!(pom.finished_pomodoros, 12);
}

#[test]
fn pomodoro_continue_from_existing_record() {
    let pom_config = zero_time_pom_config();
    let pom: Pomodoro<NotificationLog, UpdateLog> = Pomodoro::continue_from(12, pom_config);
    assert_eq!(pom.finished_pomodoros, 12);
}

#[test]
fn state_observers_are_added() {
    let observer = NotificationLog::new();
    let mut pom = zero_time_pomodoro();
    assert_eq!(pom.state_observers.len(), 0);
    pom.add_observer(observer);
    assert_eq!(pom.state_observers.len(), 1);
}

#[test]
fn pomodoro_state_observers_are_added() {
    let observer = NotificationLog::new();
    let pom_config = zero_time_pom_config();
    let mut pom: Pomodoro<NotificationLog, UpdateLog> = Pomodoro::new(pom_config);
    assert_eq!(pom.state_observers.len(), 0);
    pom.add_observer(observer);
    assert_eq!(pom.state_observers.len(), 1);
}

#[test]
fn update_observers_are_added() {
    let observer = UpdateLog::new();
    let mut pom = zero_time_pomodoro();
    assert_eq!(pom.update_observers.len(), 0);
    pom.add_update_observer(observer);
    assert_eq!(pom.update_observers.len(), 1);
}

#[test]
fn state_observers_are_called_correctly() {
    let observer = NotificationLog::new();
    let mut pom = zero_time_pomodoro();
    pom.add_observer(observer);
    pom.proceed();
    assert_eq!(
        pom.state_observers[0].calls,
        vec![(PomodoroStates::ShortBreak, 1)]
    );
}

#[test]
fn update_observers_are_called_correctly() {
    let observer = UpdateLog::new();
    let mut pom = zero_time_pomodoro();
    pom.add_update_observer(observer);
    pom.proceed();
    assert_eq!(
        pom.update_observers[0].ticks,
        vec![(PomodoroStates::Pomodoro, 0)]
    );
}

#[test]
fn resumed_engine_reports_the_next_count() {
    let mut pom: Pomodoro<NotificationLog, UpdateLog> =
        Pomodoro::continue_from(12, zero_time_pom_config());
    pom.add_observer(NotificationLog::new());
    pom.proceed();
    assert_eq!(pom.finished_pomodoros, 13);
    assert_eq!(
        pom.state_observers[0].calls,
        vec![(PomodoroStates::ShortBreak, 13)]
    );
}

#[test]
fn seven_proceeds_drive_four_pomodoros_to_a_long_break() {
    let mut pom = zero_time_pomodoro();
    pom.add_observer(NotificationLog::new());
    for _ in 0..7 {
        pom.proceed();
    }
    assert_eq!(pom.finished_pomodoros, 4);
    assert_eq!(pom.next_state, PomodoroStates::LongBreak);
    let calls = &pom.state_observers[0].calls;
    assert_eq!(calls.len(), 7);
    assert_eq!(calls[6], (PomodoroStates::LongBreak, 4));
}

#[test]
fn every_fourth_pomodoro_schedules_a_long_break() {
    let mut pom = zero_time_pomodoro();
    pom.add_observer(NotificationLog::new());
    // two full cadences: pomodoros and breaks alternate, with the fourth
    // and eighth pomodoro each followed by a long break
    for _ in 0..16 {
        pom.proceed();
    }
    let mut pomodoro_completions = 0;
    for (next_state, finished) in pom.state_observers[0].calls.iter() {
        let completed_a_pomodoro = pomodoro_completions < *finished;
        if completed_a_pomodoro {
            pomodoro_completions = *finished;
            if pomodoro_completions % 4 == 0 {
                assert_eq!(*next_state, PomodoroStates::LongBreak);
            } else {
                assert_eq!(*next_state, PomodoroStates::ShortBreak);
            }
        }
    }
    assert_eq!(pomodoro_completions, 8);
}

#[test]
fn breaks_do_not_change_the_count() {
    let mut pom = zero_time_pomodoro();
    pom.proceed();
    assert_eq!(pom.finished_pomodoros, 1);
    pom.proceed();
    assert_eq!(pom.finished_pomodoros, 1);
    assert_eq!(pom.current_state, PomodoroStates::ShortBreak);
}

#[test]
fn ticks_decrease_from_the_full_duration() {
    let mut pom: Pomodoro<NotificationLog, UpdateLog> = Pomodoro::new(PomodoroConfig {
        pomodoro_time_in_secs: 14,
        short_break_time_in_secs: 5,
        long_break_time_in_secs: 7,
    });
    pom.add_update_observer(UpdateLog::new());
    pom.proceed();
    assert_eq!(
        pom.update_observers[0].ticks,
        vec![
            (PomodoroStates::Pomodoro, 14),
            (PomodoroStates::Pomodoro, 9),
            (PomodoroStates::Pomodoro, 4),
        ]
    );
    pom.proceed();
    let ticks = &pom.update_observers[0].ticks;
    assert_eq!(ticks[3..], [(PomodoroStates::ShortBreak, 5)]);
    pom.proceed();
    let ticks = &pom.update_observers[0].ticks;
    assert_eq!(
        ticks[4..],
        [(PomodoroStates::Pomodoro, 14), (PomodoroStates::Pomodoro, 9), (PomodoroStates::Pomodoro, 4)]
    );
    pom.proceed();
    let ticks = &pom.update_observers[0].ticks;
    assert_eq!(ticks[7..], [(PomodoroStates::ShortBreak, 5)]);
}

#[test]
fn observers_are_notified_in_registration_order() {
    let mut pom = zero_time_pomodoro();
    pom.add_observer(NotificationLog::new());
    pom.add_observer(NotificationLog::new());
    pom.proceed();
    assert_eq!(pom.state_observers.len(), 2);
    for observer in pom.state_observers.iter() {
        assert_eq!(observer.calls, vec![(PomodoroStates::ShortBreak, 1)]);
    }
}
