use vstd::prelude::*;

verus! {

/// Why and how the server stopped.
#[derive(Debug, Default)]
pub struct ExitStatus {
    pub code: i32,
    pub reason: String,
}

/// The exit codes of the server process.
#[derive(Debug, Clone, Copy, PartialEq, Eq, Structural)]
pub enum ExitCode {
    /// The match ended normally.
    MatchEnded,
    /// Card data could not be fetched while the match was set up.
    CardRequestFailed,
}

impl ExitCode {
    /// The number of this exit code: 0 for a clean end, 10 for a failed card fetch.
    pub open spec fn number(self) -> i32 {
        match self {
            ExitCode::MatchEnded => 0i32,
            ExitCode::CardRequestFailed => 10i32,
        }
    }

    /// Gives the number that the process exits with.
    pub fn code(&self) -> (n: i32)
        ensures
            n == self.number(),
    {
        match self {
            ExitCode::MatchEnded => 0,
            ExitCode::CardRequestFailed => 10,
        }
    }
}

} // verus!
