use vstd::prelude::*;
use vstd::string::StringExecFns;

verus! {

/// Formats the lines of the server's log. Writing them out, and reading the
/// clock, is left to the caller.
#[derive(Debug)]
pub struct Logger;

/// A log line: the level's tag, the local time in brackets, the message.
pub open spec fn log_line(tag: Seq<char>, local: Seq<char>, message: Seq<char>) -> Seq<char> {
    tag + " ["@ + local + "] "@ + message
}

fn line(tag: &str, local: &str, message: &str) -> (text: String)
    ensures
        text@ == log_line(tag@, local@, message@),
{
    String::from_str(tag).concat(" [").concat(local).concat("] ").concat(message)
}

impl Logger {
    /// The line of an informational message.
    pub fn info(local: &str, message: &str) -> (text: String)
        ensures
            text@ == log_line("[INFO ]"@, local@, message@),
    {
        line("[INFO ]", local, message)
    }

    /// The line of a debugging message.
    pub fn debug(local: &str, message: &str) -> (text: String)
        ensures
            text@ == log_line("[DEBUG]"@, local@, message@),
    {
        line("[DEBUG]", local, message)
    }

    /// The line of a warning.
    pub fn warn(local: &str, message: &str) -> (text: String)
        ensures
            text@ == log_line("[WARN ]"@, local@, message@),
    {
        line("[WARN ]", local, message)
    }

    /// The line of an error message.
    pub fn error(local: &str, message: &str) -> (text: String)
        ensures
            text@ == log_line("[ERROR]"@, local@, message@),
    {
        line("[ERROR]", local, message)
    }
}

} // verus!
