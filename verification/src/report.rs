//! What the bot tells its operator.

use crate::bootstrap::Fatal;
use vstd::prelude::*;
use vstd::string::*;

verus! {

/// The log line for a session that became ready under the account name
/// `username`: the name followed by `" is connected!"`.
pub open spec fn connected_line(username: Seq<char>) -> Seq<char> {
    username + " is connected!"@
}

/// Builds the line to log when the gateway reports the session ready.
pub fn ready_line(username: &str) -> (line: String)
    ensures
        line@ == connected_line(username@),
{
    String::from_str(username).concat(" is connected!")
}

/// The log line for an event loop that returned the error `cause`.
pub open spec fn client_error_line(cause: Seq<char>) -> Seq<char> {
    "Client error: "@ + cause
}

/// Builds the line to log when the client's event loop returns an error.
pub fn run_error_line(cause: &str) -> (line: String)
    ensures
        line@ == client_error_line(cause@),
{
    String::from_str("Client error: ").concat(cause)
}

impl Fatal {
    /// What went wrong, without the cause.
    pub open spec fn headline_chars(self) -> Seq<char> {
        match self {
            Fatal::ConfigMissing => "Failed to find .env file"@,
            Fatal::TokenMissing => "Expected a token in the environment"@,
            Fatal::InfoUnavailable => "Could not access application info"@,
            Fatal::ClientFailed => "Error creating client"@,
        }
    }

    /// The diagnostic printed on abort: the headline, a colon and a space,
    /// then the cause.
    pub open spec fn diagnostic_chars(self, cause: Seq<char>) -> Seq<char> {
        self.headline_chars() + ": "@ + cause
    }

    /// What went wrong, without the cause.
    pub fn headline(&self) -> (text: &'static str)
        ensures
            text@ == self.headline_chars(),
    {
        match self {
            Fatal::ConfigMissing => "Failed to find .env file",
            Fatal::TokenMissing => "Expected a token in the environment",
            Fatal::InfoUnavailable => "Could not access application info",
            Fatal::ClientFailed => "Error creating client",
        }
    }

    /// Builds the diagnostic to print when start-up is abandoned because of
    /// `cause`.
    pub fn diagnostic(&self, cause: &str) -> (text: String)
        ensures
            text@ == self.diagnostic_chars(cause@),
    {
        String::from_str(self.headline()).concat(": ").concat(cause)
    }
}

} // verus!
