use vstd::prelude::*;

verus! {

/// The messages the presentation layer renders: an interval announcement,
/// a prompt for operator input, the completed-pomodoro summary, and a
/// progress line for a running interval.
pub enum UIMessages {
    StateMessage(String),
    InputMessage(),
    SummaryMessage(String),
    ProgressMessage(String),
}

} // verus!
