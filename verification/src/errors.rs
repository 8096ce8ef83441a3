//! Error values of the pipeline.

use vstd::prelude::*;
use crate::text::concat2;

verus! {

/// `r` is a failure whose text is `message`.
pub open spec fn failed_with<V>(r: Result<V, String>, message: Seq<char>) -> bool {
    r is Err && r->Err_0@ == message
}

/// Why a bulb command could not be carried out.
#[derive(Debug)]
pub enum LightStatusError {
    InvalidStatus(String),
    CommunicationFailure(String),
}

impl LightStatusError {
    /// The text of the error.
    pub open spec fn spec_message(&self) -> Seq<char> {
        match self {
            LightStatusError::InvalidStatus(status) => "Invalid light status: "@ + status@,
            LightStatusError::CommunicationFailure(reason) =>
                "Failed to communicate with the light: "@ + reason@,
        }
    }

    /// The error as a line of text.
    pub fn to_string(&self) -> (out: String)
        ensures
            out@ == self.spec_message(),
    {
        match self {
            LightStatusError::InvalidStatus(status) => concat2(
                "Invalid light status: ",
                status.as_str(),
            ),
            LightStatusError::CommunicationFailure(reason) => concat2(
                "Failed to communicate with the light: ",
                reason.as_str(),
            ),
        }
    }
}

/// The failure of a command, with the reason as text.
#[derive(Debug)]
pub struct CommandError {
    pub message: String,
}

impl CommandError {
    /// An error with the given reason.
    pub fn new(message: String) -> (out: Self)
        ensures
            out.message@ == message@,
    {
        CommandError { message }
    }

    /// The reason as text.
    pub fn to_string(&self) -> (out: String)
        ensures
            out@ == self.message@,
    {
        self.message.clone()
    }
}

} // verus!
