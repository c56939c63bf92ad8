//! The chat message that is handed to the completion service.

use vstd::prelude::*;

verus! {

/// One entry of a chat conversation: who speaks, and what is said.
#[derive(Debug)]
pub struct Message {
    pub role: String,
    pub content: String,
}

/// The mathematical value of a [`Message`]: its two texts as character sequences.
pub struct MessageView {
    pub role: Seq<char>,
    pub content: Seq<char>,
}

impl View for Message {
    type V = MessageView;

    open spec fn view(&self) -> MessageView {
        MessageView { role: self.role@, content: self.content@ }
    }
}

impl Clone for Message {
    /// A copy carries the same role and the same content.
    fn clone(&self) -> (copy: Self)
        ensures
            copy@ == self@,
    {
        Message { role: self.role.clone(), content: self.content.clone() }
    }
}

impl Message {
    /// Builds a message from its two parts.
    pub fn new(role: String, content: String) -> (msg: Self)
        ensures
            msg@ == (MessageView { role: role@, content: content@ }),
    {
        Message { role, content }
    }
}

} // verus!
