use vstd::prelude::*;
use vstd::string::StringExecFns;
use crate::communication::{ConcReceiver, ConcSender, PomodoroChannel, UIChannel};
use crate::decimal::{dec_str, u32_to_string, u64_to_string};
use crate::output::Output;
use crate::pomodoro::PomodoroStates;
use crate::uimessages::UIMessages;
use std::sync::mpsc::Receiver;
use std::sync::mpsc::RecvError;
use std::sync::mpsc::Sender;

verus! {

/// The summary line reporting the number of finished pomodoros.
pub open spec fn summary_text(finished: int) -> Seq<char> {
    "You have finished "@ + dec_str(finished) + " pomodoros today."@
}

/// The announcement of the next scheduled interval.
pub open spec fn state_text(next_state: PomodoroStates) -> Seq<char> {
    match next_state {
        PomodoroStates::Pomodoro => "Starting a new pomodoro."@,
        PomodoroStates::ShortBreak => "Let's have a short break."@,
        PomodoroStates::LongBreak => "Let's have a long break."@,
    }
}

/// Seconds rounded up to whole minutes.
pub open spec fn minutes_ceil(secs: int) -> int {
    if secs % 60 == 0 {
        secs / 60
    } else {
        secs / 60 + 1
    }
}

/// The progress line for the seconds remaining in a running interval:
/// minutes are shown while more than a minute remains.
pub open spec fn progress_text(remaining_secs: int) -> Seq<char> {
    if remaining_secs > 60 {
        dec_str(minutes_ceil(remaining_secs)) + " minutes remaining"@
    } else {
        dec_str(remaining_secs) + " seconds remaining"@
    }
}

/// The three messages shown when an interval completes and the operator is
/// asked to acknowledge the next one.
pub open spec fn ack_messages_shown(
    shown: Seq<UIMessages>,
    pre: Seq<UIMessages>,
    next_state: PomodoroStates,
    finished_pomodoros: int,
) -> bool {
    &&& shown.len() == pre.len() + 3
    &&& shown.take(pre.len() as int) == pre
    &&& (shown[pre.len() as int] matches UIMessages::SummaryMessage(m) && m@ == summary_text(
        finished_pomodoros,
    ))
    &&& (shown[pre.len() as int + 1] matches UIMessages::StateMessage(m) && m@ == state_text(next_state))
    &&& shown[pre.len() as int + 2] is InputMessage
}

/// The presentation side: renders engine events through its output and
/// sends acknowledged advance-requests back to the engine.
pub struct UserInterface<Out: Output> {
    pub ui_sender: Option<Sender<UIChannel>>,
    pub pom_receiver: Option<Receiver<PomodoroChannel>>,
    pub output: Out,
    /// The advance-requests handed to the engine's channel so far.
    pub sent: Ghost<Seq<UIChannel>>,
}

impl<Out: Output> UserInterface<Out> {
    pub fn new(output: Out) -> (r: UserInterface<Out>)
        ensures
            r.output == output,
            r.ui_sender is None,
            r.pom_receiver is None,
            r.sent@ == Seq::<UIChannel>::empty(),
    {
        UserInterface { ui_sender: None, pom_receiver: None, output, sent: Ghost(Seq::empty()) }
    }

    /// The relation one progress tick puts between the interface before
    /// and after showing it: exactly one progress line for the remaining
    /// seconds is appended, and nothing is sent.
    pub open spec fn progress_step(pre: Self, post: Self, remaining_secs: u64) -> bool {
        &&& post.output.displayed().len() == pre.output.displayed().len() + 1
        &&& post.output.displayed().take(pre.output.displayed().len() as int)
            == pre.output.displayed()
        &&& (post.output.displayed().last() matches UIMessages::ProgressMessage(m) && m@
            == progress_text(remaining_secs as int))
        &&& post.ui_sender == pre.ui_sender
        &&& post.pom_receiver == pre.pom_receiver
        &&& post.sent == pre.sent
    }

    /// The relation one acknowledgment round puts between the interface
    /// before and after it: the summary, the announcement and the prompt
    /// are appended, and exactly one `Proceed` is handed to the engine's
    /// channel when one is wired.
    pub open spec fn ack_round(
        pre: Self,
        post: Self,
        next_state: PomodoroStates,
        finished_pomodoros: u32,
    ) -> bool {
        &&& ack_messages_shown(
            post.output.displayed(),
            pre.output.displayed(),
            next_state,
            finished_pomodoros as int,
        )
        &&& (pre.ui_sender is Some ==> post.sent@ == pre.sent@.push(UIChannel::Proceed))
        &&& (pre.ui_sender is None ==> post.sent == pre.sent)
        &&& post.ui_sender == pre.ui_sender
        &&& post.pom_receiver == pre.pom_receiver
    }

    /// Opens the session: shows the summary so far, announces the first
    /// pomodoro, prompts the operator, and sends the first advance-request.
    /// The caller then keeps calling `listening_loop` for as long as it
    /// answers `true`.
    pub fn start(&mut self, finished_pomodoros: u32)
        ensures
            Self::ack_round(
                *old(self),
                *final(self),
                PomodoroStates::Pomodoro,
                finished_pomodoros,
            ),
    {
        self.ask_for_ack(PomodoroStates::Pomodoro, finished_pomodoros);
    }

    /// Shows the completed-pomodoro summary and the announcement of the
    /// next interval, prompts the operator, and sends the advance-request.
    fn ask_for_ack(&mut self, next_state: PomodoroStates, finished_pomodoros: u32)
        ensures
            Self::ack_round(*old(self), *final(self), next_state, finished_pomodoros),
    {
        let ghost pre_shown = self.output.displayed();
        self.print_finished_pomodoro_str(finished_pomodoros);
        let ghost d1 = self.output.displayed();
        let announcement = state_message(next_state);
        self.output.display(UIMessages::StateMessage(announcement));
        let ghost d2 = self.output.displayed();
        self.wait_for_user_input();
        let ghost d3 = self.output.displayed();
        match self.ui_sender.as_ref() {
            Some(channel) => {
                let _ = channel.send(UIChannel::Proceed);
                self.sent = Ghost(self.sent@.push(UIChannel::Proceed));
            },
            None => {},
        }
        proof {
            let n = pre_shown.len() as int;
            assert(d3.take(n) =~= pre_shown);
            assert(d3[n] == d1.last());
            assert(d3[n + 1] == d2.last());
            assert(d3[n + 2] == d3.last());
        }
    }

    /// Prompts the operator for the acknowledgment.
    fn wait_for_user_input(&mut self)
        ensures
            final(self).output.displayed() == old(self).output.displayed().push(
                UIMessages::InputMessage(),
            ),
            final(self).ui_sender == old(self).ui_sender,
            final(self).pom_receiver == old(self).pom_receiver,
            final(self).sent == old(self).sent,
    {
        self.output.display(UIMessages::InputMessage());
    }

    /// Shows the progress of the running interval.
    fn play_animation(&mut self, remaining_secs: u64)
        ensures
            Self::progress_step(*old(self), *final(self), remaining_secs),
    {
        let ghost pre = *self;
        let mut message: String;
        if remaining_secs > 60 {
            message = u64_to_string(self.remaining_minutes(remaining_secs));
            message.append(" minutes remaining");
        } else {
            message = u64_to_string(remaining_secs);
            message.append(" seconds remaining");
        }
        self.output.display(UIMessages::ProgressMessage(message));
        proof {
            assert(self.output.displayed().take(pre.output.displayed().len() as int)
                =~= pre.output.displayed());
        }
    }

    /// Seconds rounded up to whole minutes.
    fn remaining_minutes(&self, remaining_secs: u64) -> (r: u64)
        ensures
            r == minutes_ceil(remaining_secs as int),
    {
        if remaining_secs % 60 == 0 {
            remaining_secs / 60
        } else {
            remaining_secs / 60 + 1
        }
    }

    /// One engine event, dispatched: a tick shows exactly one progress
    /// line; a completion runs exactly one acknowledgment round; a failed
    /// receive means the channel is gone, and listening ends with nothing
    /// changed.
    pub fn handle_engine_event(&mut self, message: Result<PomodoroChannel, RecvError>) -> (keep_listening: bool)
        ensures
            (match message {
                Ok(PomodoroChannel::Update(remaining_secs)) => keep_listening
                    && Self::progress_step(*old(self), *final(self), remaining_secs),
                Ok(PomodoroChannel::Completed(next_state, finished_pomodoros)) => keep_listening
                    && Self::ack_round(*old(self), *final(self), next_state, finished_pomodoros),
                Err(_) => !keep_listening && *final(self) == *old(self),
            }),
    {
        match message {
            Ok(PomodoroChannel::Update(remaining_secs)) => {
                self.play_animation(remaining_secs);
                true
            },
            Ok(PomodoroChannel::Completed(next_state, finished_pomodoros)) => {
                self.ask_for_ack(next_state, finished_pomodoros);
                true
            },
            Err(_) => false,
        }
    }

    /// One turn of the presentation loop: blocks on the engine's event
    /// channel and dispatches the one event received. Either nothing
    /// changed at all (the channel is gone or missing), or exactly one
    /// progress line was shown, or exactly one acknowledgment round ran.
    /// The caller keeps calling this for as long as it answers `true`.
    pub fn listening_loop(&mut self) -> (keep_listening: bool)
        ensures
            old(self).pom_receiver is None ==> !keep_listening && *final(self) == *old(self),
            final(self).ui_sender == old(self).ui_sender,
            final(self).pom_receiver == old(self).pom_receiver,
            *final(self) == *old(self) || (exists|remaining_secs: u64|
                #[trigger] Self::progress_step(*old(self), *final(self), remaining_secs)) || (
            exists|next_state: PomodoroStates, finished_pomodoros: u32|
                #[trigger] Self::ack_round(
                    *old(self),
                    *final(self),
                    next_state,
                    finished_pomodoros,
                )),
    {
        let message = match self.pom_receiver.as_ref() {
            Some(channel) => channel.recv(),
            None => { return false; },
        };
        self.handle_engine_event(message)
    }

    /// Shows how many pomodoros are finished today.
    fn print_finished_pomodoro_str(&mut self, finished: u32)
        ensures
            final(self).output.displayed().len() == old(self).output.displayed().len() + 1,
            final(self).output.displayed().take(old(self).output.displayed().len() as int) == old(
                self,
            ).output.displayed(),
            (final(self).output.displayed().last() matches UIMessages::SummaryMessage(m) && m@
                == summary_text(finished as int)),
            final(self).ui_sender == old(self).ui_sender,
            final(self).pom_receiver == old(self).pom_receiver,
            final(self).sent == old(self).sent,
    {
        let mut finished_string = String::new();
        finished_string.append("You have finished ");
        let count = u32_to_string(finished);
        finished_string.append(count.as_str());
        finished_string.append(" pomodoros today.");
        self.output.display(UIMessages::SummaryMessage(finished_string));
    }
}

/// The announcement text for the next scheduled interval.
fn state_message(next_state: PomodoroStates) -> (r: String)
    ensures
        r@ == state_text(next_state),
{
    match next_state {
        PomodoroStates::Pomodoro => "Starting a new pomodoro.".to_owned(),
        PomodoroStates::ShortBreak => "Let's have a short break.".to_owned(),
        PomodoroStates::LongBreak => "Let's have a long break.".to_owned(),
    }
}

impl<Out: Output> ConcSender<UIChannel> for UserInterface<Out> {
    open spec fn sender_wired(&self) -> bool {
        self.ui_sender is Some
    }

    open spec fn unchanged_but_sender(pre: Self, post: Self) -> bool {
        &&& post.pom_receiver == pre.pom_receiver
        &&& post.output == pre.output
        &&& post.sent == pre.sent
    }

    fn chan_sender(&mut self) -> Receiver<UIChannel> {
        let (sender, receiver) = std::sync::mpsc::channel();
        self.ui_sender = Some(sender);
        receiver
    }
}

impl<Out: Output> ConcReceiver<PomodoroChannel> for UserInterface<Out> {
    open spec fn receiver_wired(&self) -> bool {
        self.pom_receiver is Some
    }

    open spec fn unchanged_but_receiver(pre: Self, post: Self) -> bool {
        &&& post.ui_sender == pre.ui_sender
        &&& post.output == pre.output
        &&& post.sent == pre.sent
    }

    fn register_receiver(&mut self, receiver: Receiver<PomodoroChannel>) {
        self.pom_receiver = Some(receiver);
    }
}

} // verus!
