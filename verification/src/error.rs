//! The ways in which a call can fail.

use vstd::prelude::*;

verus! {

/// Why a call did not produce a response.
#[derive(Debug, Clone, Copy, PartialEq, Eq, Structural)]
pub enum ClientError {
    /// The channel to the worker did not accept a message.
    ChannelUnavailable,
    /// The configured timeout ran out before the worker answered.
    TimedOut,
    /// The response bytes are not UTF-8 text.
    InvalidEncoding,
}

impl ClientError {
    /// The text that describes `self` to a caller.
    pub open spec fn message_text(self) -> Seq<char> {
        match self {
            ClientError::ChannelUnavailable => "Worker channel unavailable"@,
            ClientError::TimedOut => "Request timed out"@,
            ClientError::InvalidEncoding => "Response is not valid UTF-8"@,
        }
    }

    /// A description of the failure for the caller.
    pub fn message(&self) -> (text: String)
        ensures
            text@ == self.message_text(),
    {
        match self {
            ClientError::ChannelUnavailable => "Worker channel unavailable".to_owned(),
            ClientError::TimedOut => "Request timed out".to_owned(),
            ClientError::InvalidEncoding => "Response is not valid UTF-8".to_owned(),
        }
    }
}

} // verus!
