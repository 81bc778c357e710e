use vstd::prelude::*;
use crate::pomodoro::PomodoroStates;
use std::sync::mpsc::{Receiver, RecvError, SendError, Sender};

verus! {

/// Events the engine emits toward the presentation side: a progress tick
/// with the seconds remaining, or the completion of an interval with the
/// next scheduled state and the completed-pomodoro count.
pub enum PomodoroChannel {
    Update(u64),
    Completed(PomodoroStates, u32),
}

/// Advance-requests the presentation side sends toward the engine. Only
/// `Proceed` triggers a cycle; `Cancel` is reserved and causes no state
/// change.
pub enum UIChannel {
    Proceed,
    Cancel,
}

/// A component that hands out the receiving end of its outbound channel.
pub trait ConcSender<T>: Sized {
    /// Whether the component's outbound sender is wired.
    spec fn sender_wired(&self) -> bool;

    /// The two values agree on everything but the outbound wiring.
    spec fn unchanged_but_sender(pre: Self, post: Self) -> bool;

    fn chan_sender(&mut self) -> (receiver: Receiver<T>)
        ensures
            final(self).sender_wired(),
            Self::unchanged_but_sender(*old(self), *final(self)),
    ;
}

/// A component that accepts the receiving end of its inbound channel.
pub trait ConcReceiver<T>: Sized {
    /// Whether the component's inbound receiver is wired.
    spec fn receiver_wired(&self) -> bool;

    /// The two values agree on everything but the inbound wiring.
    spec fn unchanged_but_receiver(pre: Self, post: Self) -> bool;

    fn register_receiver(&mut self, receiver: Receiver<T>)
        ensures
            final(self).receiver_wired(),
            Self::unchanged_but_receiver(*old(self), *final(self)),
    ;
}

#[verifier::external_type_specification]
#[verifier::external_body]
#[verifier::reject_recursive_types(T)]
pub struct ExSender<T>(Sender<T>);

#[verifier::external_type_specification]
#[verifier::external_body]
#[verifier::reject_recursive_types(T)]
pub struct ExReceiver<T>(Receiver<T>);

#[verifier::external_type_specification]
#[verifier::external_body]
#[verifier::reject_recursive_types(T)]
pub struct ExSendError<T>(SendError<T>);

#[verifier::external_type_specification]
#[verifier::external_body]
pub struct ExRecvError(RecvError);

/// Relies on std::sync::mpsc::channel: creates a connected, unbounded,
/// ordered sender/receiver pair.
pub assume_specification<T>[ std::sync::mpsc::channel::<T> ]() -> (r: (
    Sender<T>,
    Receiver<T>,
));

/// Relies on std::sync::mpsc::Sender::send: enqueues the value for the
/// receiving end; fails only when the receiver has disconnected. Nothing is
/// promised of the result, since it depends on the other endpoint.
pub assume_specification<T>[ Sender::<T>::send ](s: &Sender<T>, t: T) -> (r: Result<
    (),
    SendError<T>,
>);

/// Relies on std::sync::mpsc::Receiver::recv: blocks until a message
/// arrives or the sending end disconnects. Nothing is promised of the
/// result, since it depends on the other endpoint.
pub assume_specification<T>[ Receiver::<T>::recv ](r: &Receiver<T>) -> (res: Result<
    T,
    RecvError,
>);

} // verus!
