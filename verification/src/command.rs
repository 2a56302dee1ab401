//! The narrow interface to the external utilities: a command to be run, and
//! what was observed of it afterwards.

use vstd::prelude::*;

verus! {

/// What the caller observed of one command that it was asked to run.
#[derive(Clone, Copy, Debug, PartialEq, Eq, Structural)]
pub enum Outcome {
    /// The process ran and exited with this code.
    Exited(i32),
    /// The process was ended by a signal, so there is no exit code.
    Signaled,
    /// No exit status could be obtained, for example because the process
    /// could not be started.
    Unobserved,
}

impl Outcome {
    /// Only a process that exited with code 0 has succeeded.
    pub open spec fn succeeded(self) -> bool {
        self == Outcome::Exited(0)
    }

    /// Reads what was observed of a command: `None` where no exit status
    /// could be obtained, `Some(None)` where the process ended without an
    /// exit code, which is how a signal ends it, and `Some(Some(code))`
    /// where it exited with `code`.
    pub fn observed(status: Option<Option<i32>>) -> (outcome: Outcome)
        ensures
            outcome == match status {
                None => Outcome::Unobserved,
                Some(None) => Outcome::Signaled,
                Some(Some(code)) => Outcome::Exited(code),
            },
    {
        match status {
            None => Outcome::Unobserved,
            Some(None) => Outcome::Signaled,
            Some(Some(code)) => Outcome::Exited(code),
        }
    }

    /// Tells whether the command succeeded.
    pub fn is_success(&self) -> (b: bool)
        ensures
            b == self.succeeded(),
    {
        match self {
            Outcome::Exited(code) => *code == 0,
            _ => false,
        }
    }
}

/// What becomes of a utility's own standard output and standard error.
#[derive(Clone, Copy, Debug, PartialEq, Eq, Structural)]
pub enum Diagnostics {
    /// Both streams are discarded.
    Suppressed,
    /// Both streams go where the provisioner's own output goes.
    Surfaced,
}

impl Default for Diagnostics {
    /// Diagnostics are suppressed unless the caller asks for them.
    fn default() -> (d: Diagnostics)
        ensures
            d == Diagnostics::Suppressed,
    {
        Diagnostics::Suppressed
    }
}

/// One command for the caller to run: the program, its arguments in order,
/// and what to do with its output.
#[derive(Debug, PartialEq, Eq)]
pub struct Invocation {
    pub program: String,
    pub args: Vec<String>,
    pub diagnostics: Diagnostics,
}

/// An invocation as plain text.
pub struct InvocationView {
    pub program: Seq<char>,
    pub args: Seq<Seq<char>>,
    pub diagnostics: Diagnostics,
}

impl View for Invocation {
    type V = InvocationView;

    open spec fn view(&self) -> InvocationView {
        InvocationView {
            program: self.program@,
            args: self.args.deep_view(),
            diagnostics: self.diagnostics,
        }
    }
}

impl DeepView for Invocation {
    type V = InvocationView;

    open spec fn deep_view(&self) -> InvocationView {
        self@
    }
}

} // verus!
