use vstd::prelude::*;

verus! {

/// Why an operation of the client failed, or why a stream ended early.
#[derive(Clone, Copy, Debug, PartialEq, Eq, Structural)]
pub enum RisError {
    /// The connection could not be opened, or the subscribe frame not sent.
    Connection,
    /// The subscribe request could not be turned into JSON text. No request
    /// that this library builds gives it.
    Encode,
    /// An inbound frame that is not blank is no JSON document of the
    /// response shape.
    Decode,
    /// Reading the next inbound frame failed.
    Transport,
    /// The consumer dropped the receiving end of the queue.
    QueueClosed,
}

impl RisError {
    /// A short description of the error, for messages.
    pub fn message(&self) -> (text: String)
        ensures
            text@ == match *self {
                RisError::Connection => "connection failed"@,
                RisError::Encode => "request could not be encoded"@,
                RisError::Decode => "frame could not be decoded"@,
                RisError::Transport => "transport read failed"@,
                RisError::QueueClosed => "receiver dropped"@,
            },
    {
        match self {
            RisError::Connection => String::from_str("connection failed"),
            RisError::Encode => String::from_str("request could not be encoded"),
            RisError::Decode => String::from_str("frame could not be decoded"),
            RisError::Transport => String::from_str("transport read failed"),
            RisError::QueueClosed => String::from_str("receiver dropped"),
        }
    }
}

} // verus!
