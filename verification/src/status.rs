//! The lifecycle states of the supervised process, the transition graph
//! among them, and the error taxonomy of the control operations.

use vstd::prelude::*;

verus! {

/// The five lifecycle states.  Exactly one holds at any instant.
#[derive(Clone, Copy, PartialEq, Eq, Structural, Debug)]
pub enum Status {
    Offline,
    Starting,
    Online,
    Stopping,
    Error,
}

/// The transition graph of the lifecycle: `status_edge(a, b)` holds exactly
/// when some operation may move the machine from status `a` to status `b`
/// (staying put counts as the trivial edge).  Every mutating operation of
/// the supervisor promises that its statuses before and after form an edge.
pub open spec fn status_edge(a: Status, b: Status) -> bool {
    ||| a == b
    ||| (a == Status::Offline && b == Status::Starting)
    ||| (a == Status::Starting && b == Status::Online)
    ||| (a == Status::Starting && b == Status::Offline)
    ||| (a == Status::Starting && b == Status::Stopping)
    ||| (a == Status::Starting && b == Status::Error)
    ||| (a == Status::Online && b == Status::Stopping)
    ||| (a == Status::Stopping && b == Status::Offline)
    ||| (a == Status::Stopping && b == Status::Error)
}

/// The errors a control operation can return.  Every operation either
/// succeeds or returns one of these; none panics.
#[derive(Clone, Copy, PartialEq, Eq, Structural, Debug)]
pub enum SupError {
    /// The operation is invalid in the current status.
    StateError,
    /// The external process could not be launched.
    SpawnError,
    /// The process's input pipe is closed; it has already exited.
    WriteError,
    /// The process did not exit within the allotted stop window.
    TimeoutError,
}

impl SupError {
    /// A short human-readable reason for the error.
    pub fn message(&self) -> (r: String)
        ensures
            *self == SupError::StateError ==> r@ == "operation invalid in current status"@,
            *self == SupError::SpawnError ==> r@ == "failed to launch the server process"@,
            *self == SupError::WriteError ==> r@ == "server process input pipe is closed"@,
            *self == SupError::TimeoutError ==> r@ == "server did not stop in time"@,
    {
        match self {
            SupError::StateError => String::from_str("operation invalid in current status"),
            SupError::SpawnError => String::from_str("failed to launch the server process"),
            SupError::WriteError => String::from_str("server process input pipe is closed"),
            SupError::TimeoutError => String::from_str("server did not stop in time"),
        }
    }
}

} // verus!
