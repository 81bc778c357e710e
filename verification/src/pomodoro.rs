use vstd::prelude::*;
use crate::communication::{ConcReceiver, ConcSender, PomodoroChannel, UIChannel};
use crate::observers::{Observer, UpdateState};
use std::sync::mpsc::Receiver;
use std::sync::mpsc::RecvError;
use std::sync::mpsc::Sender;

verus! {

/// The three interval kinds the timer cycles through.
#[derive(Clone, Copy, PartialEq, Eq, Structural, Debug)]
pub enum PomodoroStates {
    Pomodoro,
    ShortBreak,
    LongBreak,
}

/// Immutable interval durations, in seconds, fixed at construction.
#[derive(Clone, Copy)]
pub struct PomodoroConfig {
    pub pomodoro_time_in_secs: u64,
    pub short_break_time_in_secs: u64,
    pub long_break_time_in_secs: u64,
}

/// How many short breaks are taken before a long break is due.
pub const BREAKS_BEFORE_LONG_BREAK: u8 = 3;

/// The state scheduled after completing an interval of kind `completed`,
/// given the number of short breaks since the last long break.
pub open spec fn next_state_after(completed: PomodoroStates, breaks: int) -> PomodoroStates {
    match completed {
        PomodoroStates::Pomodoro => if breaks == BREAKS_BEFORE_LONG_BREAK as int {
            PomodoroStates::LongBreak
        } else {
            PomodoroStates::ShortBreak
        },
        PomodoroStates::ShortBreak => PomodoroStates::Pomodoro,
        PomodoroStates::LongBreak => PomodoroStates::Pomodoro,
    }
}

/// The short-break counter after completing an interval of kind `completed`.
pub open spec fn breaks_after(completed: PomodoroStates, breaks: int) -> int {
    match completed {
        PomodoroStates::Pomodoro => breaks,
        PomodoroStates::ShortBreak => breaks + 1,
        PomodoroStates::LongBreak => 0,
    }
}

/// The completed-pomodoro count after completing an interval of kind `completed`.
pub open spec fn finished_after(completed: PomodoroStates, finished: int) -> int {
    match completed {
        PomodoroStates::Pomodoro => finished + 1,
        PomodoroStates::ShortBreak => finished,
        PomodoroStates::LongBreak => finished,
    }
}

/// Seconds between two progress ticks within a running interval.
pub const TICK_PERIOD_SECS: u64 = 5;

/// The progress ticks emitted while an interval of kind `state` with the
/// given duration runs: the full duration first, then one tick per period,
/// with a final partial remainder left as it is.
pub open spec fn tick_pairs(state: PomodoroStates, seconds: u64) -> Seq<(PomodoroStates, u64)>
    decreases seconds,
{
    if seconds > TICK_PERIOD_SECS {
        seq![(state, seconds)] + tick_pairs(state, (seconds - TICK_PERIOD_SECS) as u64)
    } else {
        seq![(state, seconds)]
    }
}

/// The progress ticks of an interval as outbound channel events.
pub open spec fn tick_updates(state: PomodoroStates, seconds: u64) -> Seq<PomodoroChannel> {
    tick_pairs(state, seconds).map_values(|p: (PomodoroStates, u64)| PomodoroChannel::Update(p.1))
}

/// The events one cycle emits on the outbound channel: one update per
/// progress tick of the interval that ran, then exactly one completion
/// carrying the next scheduled state and the new count.
pub open spec fn cycle_events(
    ran: PomodoroStates,
    seconds: u64,
    next: PomodoroStates,
    finished: u32,
) -> Seq<PomodoroChannel> {
    tick_updates(ran, seconds).push(PomodoroChannel::Completed(next, finished))
}

/// One cycle's channel events are the interval's strictly decreasing ticks
/// and then its one completion: nothing else comes out of a cycle.
pub proof fn lemma_cycle_events_shape(
    ran: PomodoroStates,
    seconds: u64,
    next: PomodoroStates,
    finished: u32,
)
    ensures
        cycle_events(ran, seconds, next, finished).len() == tick_pairs(ran, seconds).len() + 1,
        cycle_events(ran, seconds, next, finished).last() == PomodoroChannel::Completed(
            next,
            finished,
        ),
        forall|i: int|
            0 <= i < tick_pairs(ran, seconds).len() ==> #[trigger] cycle_events(
                ran,
                seconds,
                next,
                finished,
            )[i] == PomodoroChannel::Update(tick_pairs(ran, seconds)[i].1),
{
}

/// The relation between the completed-pomodoro count, the short-break
/// counter and the scheduled state that holds of every engine driven from a
/// fresh start: the break counter tracks the count modulo the four-pomodoro
/// cadence.
pub open spec fn cadence_inv(finished: int, breaks: int, next: PomodoroStates) -> bool {
    finished >= 0 && match next {
        PomodoroStates::Pomodoro => breaks == finished % 4,
        PomodoroStates::ShortBreak => finished >= 1 && breaks == (finished - 1) % 4 && breaks
            < BREAKS_BEFORE_LONG_BREAK as int,
        PomodoroStates::LongBreak => finished >= 1 && breaks == BREAKS_BEFORE_LONG_BREAK as int && (
        finished - 1) % 4 == BREAKS_BEFORE_LONG_BREAK as int,
    }
}

/// A fresh engine satisfies the cadence relation.
pub proof fn lemma_cadence_init()
    ensures
        cadence_inv(0, 0, PomodoroStates::Pomodoro),
{
}

/// Completing one interval preserves the cadence relation.
pub proof fn lemma_cadence_preserved(finished: int, breaks: int, next: PomodoroStates)
    requires
        cadence_inv(finished, breaks, next),
    ensures
        cadence_inv(
            finished_after(next, finished),
            breaks_after(next, breaks),
            next_state_after(next, breaks),
        ),
{
}

/// Every fourth completed pomodoro, and no other, schedules a long break:
/// completing a pomodoro yields a long break exactly when the new count is
/// a multiple of four.
pub proof fn lemma_long_break_every_fourth(finished: int, breaks: int)
    requires
        cadence_inv(finished, breaks, PomodoroStates::Pomodoro),
    ensures
        next_state_after(PomodoroStates::Pomodoro, breaks) == PomodoroStates::LongBreak <==> (
        finished_after(PomodoroStates::Pomodoro, finished) % 4 == 0),
        next_state_after(PomodoroStates::Pomodoro, breaks) == PomodoroStates::ShortBreak <==> (
        finished_after(PomodoroStates::Pomodoro, finished) % 4 != 0),
{
}

/// The elements of the tick schedule: tick `i` reports the duration less
/// `i` whole periods.
proof fn lemma_tick_pairs_shape(state: PomodoroStates, seconds: u64)
    ensures
        tick_pairs(state, seconds).len() >= 1,
        forall|i: int|
            0 <= i < tick_pairs(state, seconds).len() ==> (#[trigger] tick_pairs(state, seconds)[i]).0
                == state && tick_pairs(state, seconds)[i].1 as int == seconds - TICK_PERIOD_SECS
                * i,
        tick_pairs(state, seconds).last().1 <= TICK_PERIOD_SECS,
    decreases seconds,
{
    if seconds > TICK_PERIOD_SECS {
        lemma_tick_pairs_shape(state, (seconds - TICK_PERIOD_SECS) as u64);
    }
}

/// Within one interval the tick sequence opens with the configured
/// duration, reports the running state throughout, and is strictly
/// decreasing; the last tick is the remainder of at most one period.
pub proof fn lemma_ticks_strictly_decreasing(state: PomodoroStates, seconds: u64)
    ensures
        tick_pairs(state, seconds).len() >= 1,
        tick_pairs(state, seconds)[0] == (state, seconds),
        tick_pairs(state, seconds).last().1 <= TICK_PERIOD_SECS,
        forall|i: int|
            0 <= i < tick_pairs(state, seconds).len() ==> (#[trigger] tick_pairs(state, seconds)[i]).0
                == state,
        forall|i: int, j: int|
            0 <= i < j < tick_pairs(state, seconds).len() ==> (#[trigger] tick_pairs(
                state,
                seconds,
            )[i]).1 > (#[trigger] tick_pairs(state, seconds)[j]).1,
{
    lemma_tick_pairs_shape(state, seconds);
    assert(tick_pairs(state, seconds)[0].1 == seconds);
}

/// The cycle engine: owns the state machine and notifies observers and the
/// outbound channel once per completed interval.
pub struct Pomodoro<O: Observer, U: UpdateState> {
    pub finished_pomodoros: u32,
    pub no_of_breaks: u8,
    pub pomodoro_time_in_secs: u64,
    pub short_break_time_in_secs: u64,
    pub long_break_time_in_secs: u64,
    pub next_state: PomodoroStates,
    pub current_state: PomodoroStates,
    pub state_observers: Vec<O>,
    pub update_observers: Vec<U>,
    pub ui_receiver: Option<Receiver<UIChannel>>,
    pub pom_sender: Option<Sender<PomodoroChannel>>,
    /// The events handed to the outbound channel so far, oldest first.
    pub sent: Ghost<Seq<PomodoroChannel>>,
}

impl<O: Observer, U: UpdateState> Pomodoro<O, U> {
    /// The configured duration, in seconds, of an interval of kind `s`.
    pub open spec fn duration_for(&self, s: PomodoroStates) -> u64 {
        match s {
            PomodoroStates::Pomodoro => self.pomodoro_time_in_secs,
            PomodoroStates::ShortBreak => self.short_break_time_in_secs,
            PomodoroStates::LongBreak => self.long_break_time_in_secs,
        }
    }

    /// Well-formedness: the break counter stays in range, and a scheduled
    /// short break means the long-break trigger has not been reached yet.
    pub open spec fn wf(&self) -> bool {
        &&& self.no_of_breaks <= BREAKS_BEFORE_LONG_BREAK
        &&& (self.next_state == PomodoroStates::ShortBreak ==> self.no_of_breaks
            < BREAKS_BEFORE_LONG_BREAK)
    }

    /// The two engines agree on everything except the completion observers.
    spec fn same_but_state_observers(a: Self, b: Self) -> bool {
        &&& a.finished_pomodoros == b.finished_pomodoros
        &&& a.no_of_breaks == b.no_of_breaks
        &&& a.pomodoro_time_in_secs == b.pomodoro_time_in_secs
        &&& a.short_break_time_in_secs == b.short_break_time_in_secs
        &&& a.long_break_time_in_secs == b.long_break_time_in_secs
        &&& a.next_state == b.next_state
        &&& a.current_state == b.current_state
        &&& a.update_observers == b.update_observers
        &&& a.ui_receiver == b.ui_receiver
        &&& a.pom_sender == b.pom_sender
        &&& a.sent == b.sent
    }

    /// The two engines agree on everything except the update observers.
    spec fn same_but_update_observers(a: Self, b: Self) -> bool {
        &&& a.finished_pomodoros == b.finished_pomodoros
        &&& a.no_of_breaks == b.no_of_breaks
        &&& a.pomodoro_time_in_secs == b.pomodoro_time_in_secs
        &&& a.short_break_time_in_secs == b.short_break_time_in_secs
        &&& a.long_break_time_in_secs == b.long_break_time_in_secs
        &&& a.next_state == b.next_state
        &&& a.current_state == b.current_state
        &&& a.state_observers == b.state_observers
        &&& a.ui_receiver == b.ui_receiver
        &&& a.pom_sender == b.pom_sender
    }

    /// The relation one completed cycle puts between the engine before and
    /// after it: the state machine advances by one interval, the interval's
    /// ticks reach every update observer, every completion observer hears
    /// the new pair once, and, when the outbound channel is wired, exactly
    /// that cycle's events are handed to it.
    pub open spec fn cycle_step(pre: Self, post: Self) -> bool {
        &&& post.wf()
        &&& post.current_state == pre.next_state
        &&& post.next_state == next_state_after(pre.next_state, pre.no_of_breaks as int)
        &&& post.no_of_breaks as int == breaks_after(pre.next_state, pre.no_of_breaks as int)
        &&& post.finished_pomodoros as int == finished_after(
            pre.next_state,
            pre.finished_pomodoros as int,
        )
        &&& post.pomodoro_time_in_secs == pre.pomodoro_time_in_secs
        &&& post.short_break_time_in_secs == pre.short_break_time_in_secs
        &&& post.long_break_time_in_secs == pre.long_break_time_in_secs
        &&& post.state_observers@.len() == pre.state_observers@.len()
        &&& (forall|i: int|
            0 <= i < pre.state_observers@.len() ==> #[trigger] post.state_observers@[i].received()
                == pre.state_observers@[i].received().push(
                (post.next_state, post.finished_pomodoros),
            ))
        &&& post.update_observers@.len() == pre.update_observers@.len()
        &&& (forall|i: int|
            0 <= i < pre.update_observers@.len() ==> #[trigger] post.update_observers@[i].updates()
                == pre.update_observers@[i].updates() + tick_pairs(
                pre.next_state,
                pre.duration_for(pre.next_state),
            ))
        &&& post.ui_receiver == pre.ui_receiver
        &&& post.pom_sender == pre.pom_sender
        &&& (pre.pom_sender is Some ==> post.sent@ == pre.sent@ + cycle_events(
            pre.next_state,
            pre.duration_for(pre.next_state),
            post.next_state,
            post.finished_pomodoros,
        ))
        &&& (pre.pom_sender is None ==> post.sent == pre.sent)
    }

    pub fn new(config: PomodoroConfig) -> (p: Pomodoro<O, U>)
        ensures
            p.finished_pomodoros == 0,
            p.no_of_breaks == 0,
            p.current_state == PomodoroStates::Pomodoro,
            p.next_state == PomodoroStates::Pomodoro,
            p.pomodoro_time_in_secs == config.pomodoro_time_in_secs,
            p.short_break_time_in_secs == config.short_break_time_in_secs,
            p.long_break_time_in_secs == config.long_break_time_in_secs,
            p.state_observers@ == Seq::<O>::empty(),
            p.update_observers@ == Seq::<U>::empty(),
            p.sent@ == Seq::<PomodoroChannel>::empty(),
            p.wf(),
    {
        Pomodoro {
            finished_pomodoros: 0,
            no_of_breaks: 0,
            pomodoro_time_in_secs: config.pomodoro_time_in_secs,
            short_break_time_in_secs: config.short_break_time_in_secs,
            long_break_time_in_secs: config.long_break_time_in_secs,
            current_state: PomodoroStates::Pomodoro,
            next_state: PomodoroStates::Pomodoro,
            state_observers: Vec::new(),
            update_observers: Vec::new(),
            ui_receiver: None,
            pom_sender: None,
            sent: Ghost(Seq::empty()),
        }
    }

    /// Same as `new`, but seeds the completed-pomodoro count from a
    /// persisted record. The break counter and states start afresh.
    pub fn continue_from(no_of_pomodoros: u32, config: PomodoroConfig) -> (p: Pomodoro<O, U>)
        ensures
            p.finished_pomodoros == no_of_pomodoros,
            p.no_of_breaks == 0,
            p.current_state == PomodoroStates::Pomodoro,
            p.next_state == PomodoroStates::Pomodoro,
            p.pomodoro_time_in_secs == config.pomodoro_time_in_secs,
            p.short_break_time_in_secs == config.short_break_time_in_secs,
            p.long_break_time_in_secs == config.long_break_time_in_secs,
            p.state_observers@ == Seq::<O>::empty(),
            p.update_observers@ == Seq::<U>::empty(),
            p.sent@ == Seq::<PomodoroChannel>::empty(),
            p.wf(),
    {
        let mut p = Pomodoro::new(config);
        p.finished_pomodoros = no_of_pomodoros;
        p
    }

    pub fn add_observer(&mut self, observer: O)
        ensures
            final(self).state_observers@ == old(self).state_observers@.push(observer),
            final(self).update_observers == old(self).update_observers,
            final(self).finished_pomodoros == old(self).finished_pomodoros,
            final(self).no_of_breaks == old(self).no_of_breaks,
            final(self).next_state == old(self).next_state,
            final(self).current_state == old(self).current_state,
            final(self).pomodoro_time_in_secs == old(self).pomodoro_time_in_secs,
            final(self).short_break_time_in_secs == old(self).short_break_time_in_secs,
            final(self).long_break_time_in_secs == old(self).long_break_time_in_secs,
            final(self).ui_receiver == old(self).ui_receiver,
            final(self).pom_sender == old(self).pom_sender,
            final(self).sent == old(self).sent,
    {
        self.state_observers.push(observer);
    }

    pub fn add_update_observer(&mut self, observer: U)
        ensures
            final(self).update_observers@ == old(self).update_observers@.push(observer),
            final(self).state_observers == old(self).state_observers,
            final(self).finished_pomodoros == old(self).finished_pomodoros,
            final(self).no_of_breaks == old(self).no_of_breaks,
            final(self).next_state == old(self).next_state,
            final(self).current_state == old(self).current_state,
            final(self).pomodoro_time_in_secs == old(self).pomodoro_time_in_secs,
            final(self).short_break_time_in_secs == old(self).short_break_time_in_secs,
            final(self).long_break_time_in_secs == old(self).long_break_time_in_secs,
            final(self).ui_receiver == old(self).ui_receiver,
            final(self).pom_sender == old(self).pom_sender,
            final(self).sent == old(self).sent,
    {
        self.update_observers.push(observer);
    }

    /// Runs one full cycle: starts the interval the previous cycle
    /// scheduled, emits its progress ticks, advances the state machine,
    /// counts a completed pomodoro, and notifies every observer once with
    /// the next scheduled state and the new count.
    pub fn proceed(&mut self)
        requires
            old(self).wf(),
            old(self).finished_pomodoros < u32::MAX,
        ensures
            Self::cycle_step(*old(self), *final(self)),
    {
        let ghost pre = *self;
        match self.next_state {
            PomodoroStates::Pomodoro => {
                if self.no_of_breaks == BREAKS_BEFORE_LONG_BREAK {
                    self.next_state = PomodoroStates::LongBreak;
                } else {
                    self.next_state = PomodoroStates::ShortBreak;
                }
                self.current_state = PomodoroStates::Pomodoro;
                let seconds = self.pomodoro_time_in_secs;
                self.wait_for_seconds(seconds);
                self.finished_pomodoros = self.finished_pomodoros + 1;
            },
            PomodoroStates::ShortBreak => {
                self.next_state = PomodoroStates::Pomodoro;
                self.current_state = PomodoroStates::ShortBreak;
                self.no_of_breaks = self.no_of_breaks + 1;
                let seconds = self.short_break_time_in_secs;
                self.wait_for_seconds(seconds);
            },
            PomodoroStates::LongBreak => {
                self.next_state = PomodoroStates::Pomodoro;
                self.current_state = PomodoroStates::LongBreak;
                self.no_of_breaks = 0;
                let seconds = self.long_break_time_in_secs;
                self.wait_for_seconds(seconds);
            },
        }
        self.notify();
        self.send_completion();
        proof {
            if pre.pom_sender is Some {
                assert(self.sent@ =~= pre.sent@ + cycle_events(
                    pre.next_state,
                    pre.duration_for(pre.next_state),
                    self.next_state,
                    self.finished_pomodoros,
                ));
            }
        }
    }

    /// Emits the interval's progress ticks: the full duration at once, then
    /// one tick per period until at most one period remains.
    fn wait_for_seconds(&mut self, seconds: u64)
        ensures
            Self::same_but_update_observers(*final(self), *old(self)),
            final(self).update_observers@.len() == old(self).update_observers@.len(),
            forall|i: int|
                0 <= i < old(self).update_observers@.len() ==> #[trigger] final(self).update_observers@[i].updates() == old(self).update_observers@[i].updates()
                    + tick_pairs(old(self).current_state, seconds),
            old(self).pom_sender is Some ==> final(self).sent@ == old(self).sent@ + tick_updates(
                old(self).current_state,
                seconds,
            ),
            old(self).pom_sender is None ==> final(self).sent == old(self).sent,
    {
        let ghost pre = *self;
        let mut remaining_secs = seconds;
        self.send_update(remaining_secs);
        let ghost mut emitted: Seq<(PomodoroStates, u64)> = seq![(pre.current_state, seconds)];
        proof {
            assert(emitted.map_values(|p: (PomodoroStates, u64)| PomodoroChannel::Update(p.1))
                =~= seq![PomodoroChannel::Update(seconds)]);
            if pre.pom_sender is Some {
                assert(self.sent@ =~= pre.sent@ + emitted.map_values(
                    |p: (PomodoroStates, u64)| PomodoroChannel::Update(p.1),
                ));
            }
            assert(tick_pairs(pre.current_state, seconds) == emitted + (
            if seconds > TICK_PERIOD_SECS {
                tick_pairs(pre.current_state, (seconds - TICK_PERIOD_SECS) as u64)
            } else {
                Seq::<(PomodoroStates, u64)>::empty()
            }));
        }
        while remaining_secs > TICK_PERIOD_SECS
            invariant
                Self::same_but_update_observers(*self, pre),
                self.update_observers@.len() == pre.update_observers@.len(),
                forall|i: int|
                    0 <= i < pre.update_observers@.len() ==> #[trigger] self.update_observers@[i].updates()
                        == pre.update_observers@[i].updates() + emitted,
                pre.pom_sender is Some ==> self.sent@ == pre.sent@ + emitted.map_values(
                    |p: (PomodoroStates, u64)| PomodoroChannel::Update(p.1),
                ),
                pre.pom_sender is None ==> self.sent == pre.sent,
                tick_pairs(pre.current_state, seconds) == emitted + (
                if remaining_secs > TICK_PERIOD_SECS {
                    tick_pairs(pre.current_state, (remaining_secs - TICK_PERIOD_SECS) as u64)
                } else {
                    Seq::<(PomodoroStates, u64)>::empty()
                }),
            decreases remaining_secs,
        {
            remaining_secs = remaining_secs - TICK_PERIOD_SECS;
            self.send_update(remaining_secs);
            proof {
                let tail = if remaining_secs > TICK_PERIOD_SECS {
                    tick_pairs(pre.current_state, (remaining_secs - TICK_PERIOD_SECS) as u64)
                } else {
                    Seq::<(PomodoroStates, u64)>::empty()
                };
                assert(tick_pairs(pre.current_state, remaining_secs) == seq![
                    (pre.current_state, remaining_secs),
                ] + tail);
                assert(emitted + tick_pairs(pre.current_state, remaining_secs) =~= emitted.push(
                    (pre.current_state, remaining_secs),
                ) + tail);
                let bumped = emitted.push((pre.current_state, remaining_secs));
                assert(bumped.map_values(|p: (PomodoroStates, u64)| PomodoroChannel::Update(p.1))
                    =~= emitted.map_values(
                    |p: (PomodoroStates, u64)| PomodoroChannel::Update(p.1),
                ).push(PomodoroChannel::Update(remaining_secs)));
                if pre.pom_sender is Some {
                    assert(self.sent@ =~= pre.sent@ + bumped.map_values(
                        |p: (PomodoroStates, u64)| PomodoroChannel::Update(p.1),
                    ));
                }
                emitted = bumped;
            }
        }
        proof {
            assert(tick_pairs(pre.current_state, seconds) =~= emitted);
            assert(tick_updates(pre.current_state, seconds) =~= emitted.map_values(
                |p: (PomodoroStates, u64)| PomodoroChannel::Update(p.1),
            ));
        }
    }

    /// Hands one progress tick to every update observer and, when wired,
    /// to the outbound channel.
    fn send_update(&mut self, remaining_secs: u64)
        ensures
            Self::same_but_update_observers(*final(self), *old(self)),
            final(self).update_observers@.len() == old(self).update_observers@.len(),
            forall|i: int|
                0 <= i < old(self).update_observers@.len() ==> #[trigger] final(self).update_observers@[i].updates() == old(self).update_observers@[i].updates().push(
                    (old(self).current_state, remaining_secs),
                ),
            old(self).pom_sender is Some ==> final(self).sent@ == old(self).sent@.push(
                PomodoroChannel::Update(remaining_secs),
            ),
            old(self).pom_sender is None ==> final(self).sent == old(self).sent,
    {
        let ghost pre = *self;
        // the channel hears the tick first, so that a pacing update
        // observer cannot hold the first tick back from the presentation
        match self.pom_sender.as_ref() {
            Some(channel) => {
                let _ = channel.send(PomodoroChannel::Update(remaining_secs));
                self.sent = Ghost(self.sent@.push(PomodoroChannel::Update(remaining_secs)));
            },
            None => {},
        }
        let ghost sent_now = self.sent@;
        let state = self.current_state;
        let mut i: usize = 0;
        while i < self.update_observers.len()
            invariant
                i <= self.update_observers.len(),
                Self::same_but_update_observers(*self, pre),
                self.sent@ == sent_now,
                pre.pom_sender is Some ==> sent_now == pre.sent@.push(
                    PomodoroChannel::Update(remaining_secs),
                ),
                pre.pom_sender is None ==> sent_now == pre.sent@,
                self.update_observers@.len() == pre.update_observers@.len(),
                state == pre.current_state,
                forall|j: int|
                    0 <= j < i ==> #[trigger] self.update_observers@[j].updates()
                        == pre.update_observers@[j].updates().push(
                        (pre.current_state, remaining_secs),
                    ),
                forall|j: int|
                    i <= j < pre.update_observers@.len() ==> self.update_observers@[j]
                        == pre.update_observers@[j],
            decreases self.update_observers.len() - i,
        {
            let observer = &mut self.update_observers[i];
            observer.update_state(state, remaining_secs);
            i = i + 1;
        }
    }

    /// Notifies every completion observer once, in registration order, with
    /// the next scheduled state and the completed-pomodoro count.
    fn notify(&mut self)
        ensures
            Self::same_but_state_observers(*final(self), *old(self)),
            final(self).state_observers@.len() == old(self).state_observers@.len(),
            forall|i: int|
                0 <= i < old(self).state_observers@.len() ==> #[trigger] final(self).state_observers@[i].received() == old(self).state_observers@[i].received().push(
                    (old(self).next_state, old(self).finished_pomodoros),
                ),
    {
        let ghost pre = *self;
        let next_state = self.next_state;
        let finished = self.finished_pomodoros;
        let mut i: usize = 0;
        while i < self.state_observers.len()
            invariant
                i <= self.state_observers.len(),
                Self::same_but_state_observers(*self, pre),
                self.state_observers@.len() == pre.state_observers@.len(),
                next_state == pre.next_state,
                finished == pre.finished_pomodoros,
                forall|j: int|
                    0 <= j < i ==> #[trigger] self.state_observers@[j].received()
                        == pre.state_observers@[j].received().push(
                        (pre.next_state, pre.finished_pomodoros),
                    ),
                forall|j: int|
                    i <= j < pre.state_observers@.len() ==> self.state_observers@[j]
                        == pre.state_observers@[j],
            decreases self.state_observers.len() - i,
        {
            let observer = &mut self.state_observers[i];
            observer.callback(next_state, finished);
            i = i + 1;
        }
    }

    /// Emits the completion event on the outbound channel, when wired.
    fn send_completion(&mut self)
        ensures
            final(self).state_observers == old(self).state_observers,
            final(self).update_observers == old(self).update_observers,
            final(self).finished_pomodoros == old(self).finished_pomodoros,
            final(self).no_of_breaks == old(self).no_of_breaks,
            final(self).next_state == old(self).next_state,
            final(self).current_state == old(self).current_state,
            final(self).pomodoro_time_in_secs == old(self).pomodoro_time_in_secs,
            final(self).short_break_time_in_secs == old(self).short_break_time_in_secs,
            final(self).long_break_time_in_secs == old(self).long_break_time_in_secs,
            final(self).ui_receiver == old(self).ui_receiver,
            final(self).pom_sender == old(self).pom_sender,
            old(self).pom_sender is Some ==> final(self).sent@ == old(self).sent@.push(
                PomodoroChannel::Completed(old(self).next_state, old(self).finished_pomodoros),
            ),
            old(self).pom_sender is None ==> final(self).sent == old(self).sent,
    {
        match self.pom_sender.as_ref() {
            Some(channel) => {
                let _ = channel.send(
                    PomodoroChannel::Completed(self.next_state, self.finished_pomodoros),
                );
                self.sent = Ghost(self.sent@.push(
                    PomodoroChannel::Completed(self.next_state, self.finished_pomodoros),
                ));
            },
            None => {},
        }
    }

    /// One advance-request, dispatched: a `Proceed` runs exactly one
    /// cycle, unless the pomodoro counter is saturated, when nothing runs
    /// and listening ends; a `Cancel` is accepted and changes nothing; a
    /// failed receive means the channel is gone, and listening ends with
    /// nothing changed.
    pub fn handle_advance_request(&mut self, message: Result<UIChannel, RecvError>) -> (keep_listening: bool)
        requires
            old(self).wf(),
        ensures
            final(self).wf(),
            (match message {
                Ok(UIChannel::Proceed) => if old(self).finished_pomodoros == u32::MAX {
                    !keep_listening && *final(self) == *old(self)
                } else {
                    keep_listening && Self::cycle_step(*old(self), *final(self))
                },
                Ok(UIChannel::Cancel) => keep_listening && *final(self) == *old(self),
                Err(_) => !keep_listening && *final(self) == *old(self),
            }),
    {
        match message {
            Ok(UIChannel::Proceed) => {
                if self.finished_pomodoros == u32::MAX {
                    return false;
                }
                self.proceed();
                true
            },
            Ok(UIChannel::Cancel) => true,
            Err(_) => false,
        }
    }

    /// One turn of the driver loop: blocks on the advance channel and
    /// dispatches the one request received. Either nothing changed at all
    /// (a `Cancel`, a disconnect, a missing channel, or a saturated
    /// counter) or the engine moved by exactly one cycle with exactly that
    /// cycle's events handed to the outbound channel. The caller keeps
    /// calling this for as long as it answers `true`.
    pub fn listen_loop(&mut self) -> (keep_listening: bool)
        requires
            old(self).wf(),
        ensures
            final(self).wf(),
            final(self).finished_pomodoros >= old(self).finished_pomodoros,
            old(self).ui_receiver is None ==> !keep_listening && *final(self) == *old(self),
            *final(self) == *old(self) || Self::cycle_step(*old(self), *final(self)),
    {
        let message = match self.ui_receiver.as_ref() {
            Some(channel) => channel.recv(),
            None => { return false; },
        };
        self.handle_advance_request(message)
    }
}

impl<O: Observer, U: UpdateState> ConcSender<PomodoroChannel> for Pomodoro<O, U> {
    open spec fn sender_wired(&self) -> bool {
        self.pom_sender is Some
    }

    open spec fn unchanged_but_sender(pre: Self, post: Self) -> bool {
        &&& post.finished_pomodoros == pre.finished_pomodoros
        &&& post.no_of_breaks == pre.no_of_breaks
        &&& post.pomodoro_time_in_secs == pre.pomodoro_time_in_secs
        &&& post.short_break_time_in_secs == pre.short_break_time_in_secs
        &&& post.long_break_time_in_secs == pre.long_break_time_in_secs
        &&& post.next_state == pre.next_state
        &&& post.current_state == pre.current_state
        &&& post.state_observers == pre.state_observers
        &&& post.update_observers == pre.update_observers
        &&& post.ui_receiver == pre.ui_receiver
        &&& post.sent == pre.sent
    }

    fn chan_sender(&mut self) -> Receiver<PomodoroChannel> {
        let (sender, receiver) = std::sync::mpsc::channel();
        self.pom_sender = Some(sender);
        receiver
    }
}

impl<O: Observer, U: UpdateState> ConcReceiver<UIChannel> for Pomodoro<O, U> {
    open spec fn receiver_wired(&self) -> bool {
        self.ui_receiver is Some
    }

    open spec fn unchanged_but_receiver(pre: Self, post: Self) -> bool {
        &&& post.finished_pomodoros == pre.finished_pomodoros
        &&& post.no_of_breaks == pre.no_of_breaks
        &&& post.pomodoro_time_in_secs == pre.pomodoro_time_in_secs
        &&& post.short_break_time_in_secs == pre.short_break_time_in_secs
        &&& post.long_break_time_in_secs == pre.long_break_time_in_secs
        &&& post.next_state == pre.next_state
        &&& post.current_state == pre.current_state
        &&& post.state_observers == pre.state_observers
        &&& post.update_observers == pre.update_observers
        &&& post.pom_sender == pre.pom_sender
        &&& post.sent == pre.sent
    }

    fn register_receiver(&mut self, receiver: Receiver<UIChannel>) {
        self.ui_receiver = Some(receiver);
    }
}

} // verus!

