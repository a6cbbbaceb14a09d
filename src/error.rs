use vstd::prelude::*;

verus! {

/// The classes of failure that end a run.
#[derive(Clone, Copy, Debug, PartialEq, Eq, Structural)]
pub enum ErrorKind {
    /// A step's preflight found the environment unsuitable.
    Precondition,
    /// A step's apply could not perform its effect.
    Effect,
    /// A step's verify could not be carried out.
    Check,
    /// A step's apply succeeded but its verify right after did not hold.
    PostconditionMismatch,
    /// The snapshot store could not be created or written.
    Storage,
    /// No snapshot exists for the run id.
    NotFound,
    /// The snapshot could not be decoded.
    CorruptState,
    /// The snapshot holds no domain configuration.
    MissingConfig,
}

/// A failure that ends a run: its class, the id of the step it arose in
/// (empty where no step was running) and the cause reported.
#[derive(Clone, Debug)]
pub struct RunError {
    pub kind: ErrorKind,
    pub step: String,
    pub cause: String,
}

/// The text of an error of class `kind` in step `step` with cause `cause`.
pub open spec fn message_of(kind: ErrorKind, step: Seq<char>, cause: Seq<char>) -> Seq<char> {
    match kind {
        ErrorKind::Precondition => "Preflight failed for step "@ + step + ": "@ + cause,
        ErrorKind::Effect => "Apply failed for step "@ + step + ": "@ + cause,
        ErrorKind::Check => "Verify failed for step "@ + step + ": "@ + cause,
        ErrorKind::PostconditionMismatch => "Step "@ + step
            + " did not verify after apply. See logs/state for details."@,
        ErrorKind::MissingConfig => "state does not contain inputs"@,
        _ => cause,
    }
}

/// `e` is of class `kind`, arose in step `step` and reports `cause`.
pub open spec fn error_is(e: RunError, kind: ErrorKind, step: Seq<char>, cause: Seq<char>) -> bool {
    e.kind == kind && e.step@ == step && e.cause@ == cause
}

impl RunError {
    /// An error of class `kind` in step `step` with cause `cause`.
    pub fn new(kind: ErrorKind, step: &str, cause: &str) -> (r: RunError)
        ensures
            error_is(r, kind, step@, cause@),
    {
        RunError { kind, step: String::from_str(step), cause: String::from_str(cause) }
    }

    /// The human-readable text of the error.
    pub fn message(&self) -> (r: String)
        ensures
            r@ == message_of(self.kind, self.step@, self.cause@),
    {
        let step = self.step.as_str();
        let cause = self.cause.as_str();
        match self.kind {
            ErrorKind::Precondition => String::from_str("Preflight failed for step ").concat(
                step,
            ).concat(": ").concat(cause),
            ErrorKind::Effect => String::from_str("Apply failed for step ").concat(step).concat(
                ": ",
            ).concat(cause),
            ErrorKind::Check => String::from_str("Verify failed for step ").concat(step).concat(
                ": ",
            ).concat(cause),
            ErrorKind::PostconditionMismatch => String::from_str("Step ").concat(step).concat(
                " did not verify after apply. See logs/state for details.",
            ),
            ErrorKind::MissingConfig => String::from_str("state does not contain inputs"),
            _ => String::from_str(cause),
        }
    }
}

} // verus!
