use vstd::prelude::*;
use vstd::string::*;

verus! {

/// How a run ends, as reported to the user and to the shell.
#[derive(Clone, Debug, PartialEq, Eq)]
pub enum ExitCodes {
    /// No attempt has been judged yet.
    Unknown,
    /// A command-line value could not be read; the text says which.
    InputError(String),
    /// The secondary answered the NOTIFY with NoError.
    NotifySucceeded,
    /// The secondary answered the NOTIFY with another response code.
    NotifyFailed,
    /// The local socket or event mechanism could not be set up.
    FailedToCreateEvenLoop,
    /// Sending, receiving or reading the response failed; the text says how.
    TransportError(String),
}

/// The shell exit code of each outcome.
pub open spec fn exit_code_of(e: ExitCodes) -> int {
    match e {
        ExitCodes::Unknown => -2,
        ExitCodes::InputError(_) => -1,
        ExitCodes::NotifySucceeded => 0,
        ExitCodes::NotifyFailed => 1,
        ExitCodes::FailedToCreateEvenLoop => 101,
        ExitCodes::TransportError(_) => 102,
    }
}

impl ExitCodes {
    /// The shell exit code of this outcome.
    pub fn exit_code(&self) -> (r: i32)
        ensures
            r == exit_code_of(*self),
    {
        match self {
            ExitCodes::Unknown => -2,
            ExitCodes::InputError(_) => -1,
            ExitCodes::NotifySucceeded => 0,
            ExitCodes::NotifyFailed => 1,
            ExitCodes::FailedToCreateEvenLoop => 101,
            ExitCodes::TransportError(_) => 102,
        }
    }

    /// The line shown to the user for this outcome.
    pub fn message(&self) -> (r: String)
        ensures
            r@ == message_of(*self),
    {
        match self {
            ExitCodes::Unknown => String::from_str("You broke axfrnotify. Now go and fix it."),
            ExitCodes::InputError(msg) => {
                String::from_str("Failed to parse input because ").concat(msg.as_str())
            },
            ExitCodes::NotifySucceeded => String::from_str(
                "Successfully sent notification and received positive response.",
            ),
            ExitCodes::NotifyFailed => String::from_str(
                "Successfully sent notification but received negative response.",
            ),
            ExitCodes::FailedToCreateEvenLoop => String::from_str("Failed to create event loop."),
            ExitCodes::TransportError(msg) => String::from_str(
                "Failed to send query or receive response because ",
            ).concat(msg.as_str()).concat("."),
        }
    }
}

/// The line shown to the user for each outcome.
pub open spec fn message_of(e: ExitCodes) -> Seq<char> {
    match e {
        ExitCodes::Unknown => "You broke axfrnotify. Now go and fix it."@,
        ExitCodes::InputError(msg) => "Failed to parse input because "@ + msg@,
        ExitCodes::NotifySucceeded => "Successfully sent notification and received positive response."@,
        ExitCodes::NotifyFailed => "Successfully sent notification but received negative response."@,
        ExitCodes::FailedToCreateEvenLoop => "Failed to create event loop."@,
        ExitCodes::TransportError(msg) => "Failed to send query or receive response because "@
            + msg@ + "."@,
    }
}

impl From<ExitCodes> for i32 {
    /// Converts an outcome to its shell exit code.
    fn from(code: ExitCodes) -> (r: i32) {
        code.exit_code()
    }
}

impl vstd::std_specs::convert::FromSpecImpl<ExitCodes> for i32 {
    open spec fn obeys_from_spec() -> bool {
        true
    }

    open spec fn from_spec(v: ExitCodes) -> i32 {
        exit_code_of(v) as i32
    }
}

} // verus!
