//! Client-to-server message vocabulary.

use vstd::prelude::*;

verus! {

/// An intent read from a client: claim a display name, say a line of chat, or
/// leave.  Each intent is one-shot; no intent carries cross-call state.
#[derive(Debug, PartialEq, Eq)]
pub enum Message {
    Join(String),
    Say(String),
    Leave,
}

/// The mathematical value of a client intent: its text fields as character
/// sequences.
pub ghost enum MessageV {
    Join(Seq<char>),
    Say(Seq<char>),
    Leave,
}

impl View for Message {
    type V = MessageV;

    open spec fn view(&self) -> MessageV {
        match self {
            Message::Join(name) => MessageV::Join(name@),
            Message::Say(text) => MessageV::Say(text@),
            Message::Leave => MessageV::Leave,
        }
    }
}

impl Clone for Message {
    fn clone(&self) -> (res: Self)
        ensures
            res == *self,
    {
        match self {
            Message::Join(name) => Message::Join(name.clone()),
            Message::Say(text) => Message::Say(text.clone()),
            Message::Leave => Message::Leave,
        }
    }
}

} // verus!
