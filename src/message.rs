use vstd::prelude::*;

verus! {

/// One frame of the duplex protocol.
#[derive(Debug, PartialEq, Eq)]
pub enum Message {
    Text(String),
    Binary(Vec<u8>),
    Ping(Vec<u8>),
    Pong(Vec<u8>),
    Close,
}

impl Message {
    pub open spec fn is_text_spec(&self) -> bool {
        self is Text
    }

    /// Whether this frame carries text.
    pub fn is_text(&self) -> (r: bool)
        ensures
            r == self.is_text_spec(),
    {
        match self {
            Message::Text(_) => true,
            _ => false,
        }
    }
}

} // verus!
