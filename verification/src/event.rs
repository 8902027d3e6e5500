//! The basic application event carried over the network as a message
//! payload: who says it, under what title, and the text itself.

use vstd::prelude::*;

verus! {

/// One application event, as consumers above the networking core exchange it.
#[derive(Clone, Debug)]
pub struct BaseEvent {
    /// Who raised the event.
    pub nick: String,
    /// Short title of the event.
    pub title: String,
    /// The event's text.
    pub text: String,
}

impl BaseEvent {
    /// A new event from its three parts.
    pub fn new(nick: String, title: String, text: String) -> (e: BaseEvent)
        ensures
            e.nick@ == nick@,
            e.title@ == title@,
            e.text@ == text@,
    {
        BaseEvent { nick, title, text }
    }
}

} // verus!
