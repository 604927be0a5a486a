//! The conversation store: the messages of one conversation, in their order.
//!
//! A conversation opens with the system message and only grows: nothing is
//! ever changed or taken out, and no second system message comes in.

use vstd::prelude::*;

use crate::chat::clone_messages;
use crate::chat::Message;
use crate::chat::MessageView;
use crate::chat::Role;

verus! {

/// What holds of every conversation: it opens with the system message, and
/// that is its only one.
pub open spec fn well_formed(history: Seq<MessageView>) -> bool {
    &&& history.len() >= 1
    &&& history[0].role == Role::System
    &&& forall|i: int| 1 <= i < history.len() ==> (#[trigger] history[i]).role != Role::System
}

/// The conversation that holds the system message alone.
pub open spec fn opened(system_prompt: Seq<char>) -> Seq<MessageView> {
    seq![MessageView { role: Role::System, content: system_prompt }]
}

/// The messages of one conversation. Its view is the sequence of messages.
pub struct ConversationState {
    messages: Vec<Message>,
}

impl View for ConversationState {
    type V = Seq<MessageView>;

    closed spec fn view(&self) -> Seq<MessageView> {
        self.messages.deep_view()
    }
}

impl ConversationState {
    /// The conversation that opens with `system_prompt`.
    pub fn new(system_prompt: String) -> (r: ConversationState)
        ensures
            r@ == opened(system_prompt@),
            well_formed(r@),
    {
        let mut messages: Vec<Message> = Vec::new();
        messages.push(Message { role: Role::System, content: system_prompt });
        ConversationState { messages }
    }

    /// Adds `message` at the end. Only the turn executor appends, and never
    /// a system message.
    pub(crate) fn append(&mut self, message: Message)
        requires
            message.role != Role::System,
        ensures
            final(self)@ == old(self)@.push(message@),
            well_formed(old(self)@) ==> well_formed(final(self)@),
    {
        let ghost before = self.messages.deep_view();
        self.messages.push(message);
        assert(self.messages.deep_view() =~= before.push(message@));
    }

    /// The messages, first to last.
    pub fn messages(&self) -> (r: &Vec<Message>)
        ensures
            r.deep_view() == self@,
    {
        &self.messages
    }

    /// A copy of the messages, first to last, as a request carries them.
    pub fn snapshot(&self) -> (r: Vec<Message>)
        ensures
            r.deep_view() == self@,
    {
        clone_messages(&self.messages)
    }

    /// How many messages the conversation holds.
    pub fn len(&self) -> (r: usize)
        ensures
            r == self@.len(),
    {
        self.messages.len()
    }
}

} // verus!
