use vstd::prelude::*;

verus! {

/// Classifies a sink failure for the failure policy: either the reader of a
/// sink's output has closed its end (a broken pipe), or any other I/O
/// failure (disk full, permission denied, device error, ...).
#[derive(Clone, Copy, Debug, PartialEq, Eq, Structural)]
pub enum WriteErrorKind {
    BrokenPipe,
    Other,
}

/// The operation a sink was performing when it failed.
#[derive(Clone, Copy, Debug, PartialEq, Eq, Structural)]
pub enum SinkOp {
    Write,
    Flush,
    Open,
    Stat,
    Delete,
}

/// A single sink's failure: its classification, the operation that failed,
/// and the underlying system error rendered as text for diagnostics.
pub struct SinkError {
    pub kind: WriteErrorKind,
    pub op: SinkOp,
    pub message: String,
}

/// The aggregate failure of a broadcast call: either some sink failed and
/// the failure policy chose to abort, or every sink has been removed and
/// nothing remains to write to. The latter is a sentinel, not a real I/O
/// error: it tells the input-copy loop to stop reading early.
pub enum TeeError {
    Io(SinkError),
    NoDestinationsRemain,
}

impl TeeError {
    /// True exactly for the sentinel that ends the input-copy loop early:
    /// the copy loop stops reading on it instead of propagating it as a
    /// read-side failure.
    pub fn is_early_stop(&self) -> (r: bool)
        ensures
            r == (self is NoDestinationsRemain),
    {
        match self {
            TeeError::NoDestinationsRemain => true,
            TeeError::Io(_) => false,
        }
    }
}

/// Maps the end of a run to the process-level outcome: the run succeeded
/// exactly when the copy loop saw no failure (the "no destinations remain"
/// sentinel included) and the final flush of every remaining sink succeeded.
pub fn run_succeeded(copy_failure: &Option<TeeError>, flush_ok: bool) -> (r: bool)
    ensures
        r == (copy_failure is None && flush_ok),
{
    match copy_failure {
        None => flush_ok,
        Some(_) => false,
    }
}

} // verus!
