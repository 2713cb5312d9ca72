//! What can end a run without a completion.

use crate::status::{status_line, Status};
use vstd::prelude::*;

verus! {

/// Why a run ends without a completion.
#[derive(Debug, Clone, Copy, PartialEq, Eq, Structural)]
pub enum Error {
    /// Neither piped input nor a prompt holds usable text.
    Input,
    /// A text is there but holds no letter and no digit.
    AlphanumericInput,
    /// No credential was given, by flag or by the environment.
    AuthenticationKey,
    /// The request got no response at all.
    Transport,
    /// The response came with a status other than 200.
    UnexpectedStatus(Status),
    /// The response came with status 200 and a body that holds no
    /// completion: it does not decode, or it decodes to no choice at all.
    Deserialization,
}

/// Shown when there is nothing to send.
pub const NO_INPUT: &'static str = "No input found. Use --help for usage information.";

/// Shown when there is no credential.
pub const NO_KEY: &'static str = "Authentication key not found. Use --help for usage information.";

/// Shown when the request got no response.
pub const NO_RESPONSE: &'static str = "Failed request to OpenAI server.";

/// Shown when the response's body holds no completion.
pub const BAD_RESPONSE: &'static str = "Failed to deserialise OpenAI response.";

impl Error {
    /// What the user is told. No message holds anything of the credential or
    /// of the texts.
    pub open spec fn text(self) -> Seq<char> {
        match self {
            Error::Input | Error::AlphanumericInput => NO_INPUT@,
            Error::AuthenticationKey => NO_KEY@,
            Error::Transport => NO_RESPONSE@,
            Error::UnexpectedStatus(status) => status_line(status@),
            Error::Deserialization => BAD_RESPONSE@,
        }
    }

    /// What the user is told.
    pub fn to_string(&self) -> (text: String)
        ensures
            text@ == self.text(),
    {
        match self {
            Error::Input | Error::AlphanumericInput => NO_INPUT.to_owned(),
            Error::AuthenticationKey => NO_KEY.to_owned(),
            Error::Transport => NO_RESPONSE.to_owned(),
            Error::UnexpectedStatus(status) => status.to_string(),
            Error::Deserialization => BAD_RESPONSE.to_owned(),
        }
    }
}

} // verus!
