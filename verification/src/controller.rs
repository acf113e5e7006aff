//! The control interface a server backend offers to its callers.

use vstd::prelude::*;
use vstd::slice::slice_to_vec;
use crate::status::{status_edge, Status, SupError};
use crate::supervisor::{Supervisor, DEFAULT_STOP_TICKS};

verus! {

/// Request a start, an orderly stop, or a console command of a server
/// backend.  Each operation reports failure with a short human-readable
/// reason.  The backend of this library is [`Supervisor`]; an
/// application may implement the trait for a backend of its own.
pub trait ServerController {
    fn start(&mut self) -> Result<(), String>;

    fn stop(&mut self) -> Result<(), String>;

    fn send_cmd(&mut self, cmd: &str) -> Result<(), String>;
}

impl ServerController for Supervisor {
    /// Moves Offline to Starting; the application must then spawn the
    /// process.  From any other status the request fails and nothing
    /// changes.  See [`Supervisor::request_start`].
    fn start(&mut self) -> (r: Result<(), String>)
        ensures
            old(self).wf() ==> final(self).wf(),
            status_edge(old(self).status, final(self).status),
            old(self).status == Status::Offline ==> r is Ok && *final(self) == (Supervisor {
                status: Status::Starting,
                ..*old(self)
            }),
            old(self).status != Status::Offline ==> r is Err && *final(self) == *old(self),
    {
        match self.request_start() {
            Ok(()) => Ok(()),
            Err(e) => Err(e.message()),
        }
    }

    /// Moves Online or Starting to Stopping with the default poll
    /// window; the application must then write the shutdown command and
    /// poll.  Otherwise the request fails and nothing changes.  See
    /// [`Supervisor::request_stop`].
    fn stop(&mut self) -> (r: Result<(), String>)
        ensures
            old(self).wf() ==> final(self).wf(),
            status_edge(old(self).status, final(self).status),
            (old(self).status == Status::Online || old(self).status == Status::Starting)
                && old(self).process is Some ==> r is Ok && *final(self) == (Supervisor {
                status: Status::Stopping,
                stop_ticks_left: DEFAULT_STOP_TICKS,
                ..*old(self)
            }),
            !((old(self).status == Status::Online || old(self).status == Status::Starting)
                && old(self).process is Some) ==> r is Err && *final(self) == *old(self),
    {
        match self.request_stop(DEFAULT_STOP_TICKS) {
            Ok(_) => Ok(()),
            Err(e) => Err(e.message()),
        }
    }

    /// Accepts a console command while a process exists, refusing it
    /// otherwise; the state never changes.  The validation and the
    /// command line go through [`Supervisor::request_command`]; this
    /// adapter's shape drops the line, so an application that must
    /// write it calls `request_command` itself.
    fn send_cmd(&mut self, cmd: &str) -> (r: Result<(), String>)
        ensures
            *final(self) == *old(self),
            old(self).process is Some ==> r is Ok,
            old(self).process is None ==> r is Err,
    {
        let bytes = slice_to_vec(cmd.as_bytes());
        match self.request_command(&bytes) {
            Ok(_) => Ok(()),
            Err(e) => Err(e.message()),
        }
    }
}

} // verus!
