//! The texts in which a session's errors are reported.

use crate::session::Fatal;
use vstd::prelude::*;
use vstd::string::StringExecFns;

verus! {

/// What a session that cannot connect fails with, before the error itself.
pub const CONNECT_FAILURE: &'static str = "{{\"error\":\"unable to connect\"}}";

/// The line that reports an error that a session survives: an object with
/// the error's text as its one member. The text is taken as it is.
pub open spec fn error_line_text(error: Seq<char>) -> Seq<char> {
    "{\"error\":\""@ + error + "\"}"@
}

/// Builds the line that reports an error that a session survives.
pub fn error_line(error: &str) -> (line: String)
    ensures
        line@ == error_line_text(error@),
{
    let mut line = String::from_str("{\"error\":\"");
    line.append(error);
    line.append("\"}");
    line
}

impl Fatal {
    /// The message of a fatal error: for a failed connection the fixed text
    /// followed by the error, for a failed write or read the error alone.
    pub open spec fn message_text(self) -> Seq<char> {
        match self {
            Fatal::Connect(error) => CONNECT_FAILURE@ + ": "@ + error@,
            Fatal::Write(error) => error@,
            Fatal::Read(error) => error@,
        }
    }

    /// Builds the message that a session fails with.
    pub fn message(&self) -> (message: String)
        ensures
            message@ == self.message_text(),
    {
        match self {
            Fatal::Connect(error) => {
                let mut message = String::from_str(CONNECT_FAILURE);
                message.append(": ");
                message.append(error.as_str());
                message
            },
            Fatal::Write(error) => error.clone(),
            Fatal::Read(error) => error.clone(),
        }
    }
}

} // verus!
