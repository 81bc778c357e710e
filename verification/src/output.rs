use vstd::prelude::*;
use crate::uimessages::UIMessages;

verus! {

/// The rendering sink of the presentation layer. Implementors own the
/// terminal; the library only decides which messages are shown, and when.
pub trait Output: Sized {
    /// The messages displayed so far, oldest first.
    /// Implementors say what this is of them; the default stands only so
    /// that unverified embeddings can implement the trait.
    open spec fn displayed(&self) -> Seq<UIMessages> {
        Seq::empty()
    }

    fn display(&mut self, ui_message: UIMessages)
        ensures
            final(self).displayed() == old(self).displayed().push(ui_message),
    ;
}

/// An output that records every message instead of rendering it.
pub struct MessageLog {
    pub messages: Vec<UIMessages>,
}

impl MessageLog {
    pub fn new() -> (r: MessageLog)
        ensures
            r.messages@ == Seq::<UIMessages>::empty(),
    {
        MessageLog { messages: Vec::new() }
    }
}

impl Output for MessageLog {
    open spec fn displayed(&self) -> Seq<UIMessages> {
        self.messages@
    }

    fn display(&mut self, ui_message: UIMessages) {
        self.messages.push(ui_message);
    }
}

} // verus!
