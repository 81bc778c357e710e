use vstd::prelude::*;
use crate::pomodoro::PomodoroStates;

verus! {

/// Notified once per completed interval, carrying the next scheduled state
/// and the total completed-pomodoro count.
pub trait Observer: Sized {
    /// The notifications this observer has received so far, oldest first.
    /// Implementors say what this is of them; the default stands only so
    /// that unverified embeddings can implement the trait.
    open spec fn received(&self) -> Seq<(PomodoroStates, u32)> {
        Seq::empty()
    }

    fn callback(&mut self, next_state: PomodoroStates, finished_pomodoros: u32)
        ensures
            final(self).received() == old(self).received().push(
                (next_state, finished_pomodoros),
            ),
    ;
}

/// Notified once per progress tick, carrying the running state and the
/// seconds remaining in the current interval.
pub trait UpdateState: Sized {
    /// The ticks this observer has received so far, oldest first.
    /// Implementors say what this is of them; the default stands only so
    /// that unverified embeddings can implement the trait.
    open spec fn updates(&self) -> Seq<(PomodoroStates, u64)> {
        Seq::empty()
    }

    fn update_state(&mut self, state: PomodoroStates, remaining_secs: u64)
        ensures
            final(self).updates() == old(self).updates().push((state, remaining_secs)),
    ;
}

/// An observer that records every completion notification it receives.
pub struct NotificationLog {
    pub calls: Vec<(PomodoroStates, u32)>,
}

impl NotificationLog {
    pub fn new() -> (r: NotificationLog)
        ensures
            r.calls@ == Seq::<(PomodoroStates, u32)>::empty(),
    {
        NotificationLog { calls: Vec::new() }
    }
}

impl Observer for NotificationLog {
    open spec fn received(&self) -> Seq<(PomodoroStates, u32)> {
        self.calls@
    }

    fn callback(&mut self, next_state: PomodoroStates, finished_pomodoros: u32) {
        self.calls.push((next_state, finished_pomodoros));
    }
}

/// An update observer that records every progress tick it receives.
pub struct UpdateLog {
    pub ticks: Vec<(PomodoroStates, u64)>,
}

impl UpdateLog {
    pub fn new() -> (r: UpdateLog)
        ensures
            r.ticks@ == Seq::<(PomodoroStates, u64)>::empty(),
    {
        UpdateLog { ticks: Vec::new() }
    }
}

impl UpdateState for UpdateLog {
    open spec fn updates(&self) -> Seq<(PomodoroStates, u64)> {
        self.ticks@
    }

    fn update_state(&mut self, state: PomodoroStates, remaining_secs: u64) {
        self.ticks.push((state, remaining_secs));
    }
}

} // verus!
