//! The control plane: the single authority over the supervised process.
//!
//! The supervisor holds the lifecycle status, the identity of the
//! supervised process, the recorded start time, the last observed player
//! counts and the log ring.  Its methods are the decision functions of
//! the start/stop/command protocol: each takes plain values (a clock
//! reading, a log line, a liveness observation) and returns the action
//! the surrounding application must carry out (a spawn, a line to write
//! to the process's input, a termination), or a typed error.  No method
//! performs I/O and none panics.

use vstd::prelude::*;
use crate::log_ring::{LogRing, ring_append};
use crate::patterns::{is_ready_line, parse_player_line, player_counts, ready_line};
use crate::status::{status_edge, Status, SupError};
use crate::telemetry::{vm_rss_kb, vm_rss_kb_of_report};
use crate::text::{append_bytes, copy_bytes};

verus! {

/// The documented default stop window: one-second polls, fifteen of them.
pub const DEFAULT_STOP_TICKS: u32 = 15;

/// `"ERROR: "`, the prefix marking lines read from standard error.
pub open spec fn lit_error_prefix() -> Seq<u8> {
    seq!['E' as u8, 'R' as u8, 'R' as u8, 'O' as u8, 'R' as u8, ':' as u8, ' ' as u8]
}

/// `"stop\n"`, the console command requesting an orderly shutdown.
pub open spec fn lit_stop_line() -> Seq<u8> {
    seq!['s' as u8, 't' as u8, 'o' as u8, 'p' as u8, '\n' as u8]
}

/// `"list\n"`, the console command requesting the player list.
pub open spec fn lit_list_line() -> Seq<u8> {
    seq!['l' as u8, 'i' as u8, 's' as u8, 't' as u8, '\n' as u8]
}

/// What one poll of the stop wait decided.
#[derive(Clone, Copy, PartialEq, Eq, Structural, Debug)]
pub enum StopPoll {
    /// The process has exited; the supervisor is back Offline.
    Exited,
    /// The process is still alive and the window is not exhausted.
    StillWaiting,
}

/// What processing one standard-output line derived.
#[derive(Clone, Copy, Debug)]
pub struct LineOutcome {
    /// The line carried the readiness marker and moved Starting to Online.
    pub became_ready: bool,
    /// The player counts the line reported, if any: to be forwarded as a
    /// players-changed notification.
    pub players: Option<(u32, u32)>,
}

/// The supervisor's state: every field is mutated only through the
/// methods below, each of which promises that the statuses before and
/// after form an edge of the lifecycle graph.
pub struct Supervisor {
    /// The current lifecycle status.
    pub status: Status,
    /// The identity (PID) of the supervised process, while one exists.
    pub process: Option<u64>,
    /// The clock reading recorded the instant readiness was observed.
    pub start_time: Option<u64>,
    /// Last observed count of players online.
    pub players_online: u32,
    /// Last observed player capacity.
    pub players_max: u32,
    /// The most recent log lines.
    pub logs: LogRing,
    /// How many polls of the stop window remain.
    pub stop_ticks_left: u32,
}

impl Supervisor {
    /// The state invariant: Online implies a process and a start time
    /// exist, Offline implies neither does, Starting has no start time
    /// yet, Stopping still has its process, and the log ring is bounded.
    pub open spec fn wf(&self) -> bool {
        &&& self.logs.wf()
        &&& (self.status == Status::Offline ==> self.process is None && self.start_time is None)
        &&& (self.status == Status::Starting ==> self.start_time is None)
        &&& (self.status == Status::Online ==> self.process is Some && self.start_time is Some)
        &&& (self.status == Status::Stopping ==> self.process is Some)
    }

    /// A fresh supervisor: Offline, no process, no start time, player
    /// counts zero, empty log.
    pub fn new() -> (r: Supervisor)
        ensures
            r.wf(),
            r.status == Status::Offline,
            r.process is None,
            r.start_time is None,
            r.players_online == 0,
            r.players_max == 0,
            r.logs@ == Seq::<Seq<u8>>::empty(),
            r.stop_ticks_left == 0,
    {
        Supervisor {
            status: Status::Offline,
            process: None,
            start_time: None,
            players_online: 0,
            players_max: 0,
            logs: LogRing::new(),
            stop_ticks_left: 0,
        }
    }

    /// Requests a start.  Valid only from Offline: the status moves to
    /// Starting and the caller must now spawn the process.  From any
    /// other status this is a `StateError` and nothing changes, so no
    /// second process is ever spawned.
    pub fn request_start(&mut self) -> (r: Result<(), SupError>)
        ensures
            old(self).wf() ==> final(self).wf(),
            status_edge(old(self).status, final(self).status),
            old(self).status == Status::Offline ==> r is Ok && *final(self) == (Supervisor {
                status: Status::Starting,
                ..*old(self)
            }),
            old(self).status != Status::Offline ==> r == Err::<(), SupError>(SupError::StateError)
                && *final(self) == *old(self),
    {
        match self.status {
            Status::Offline => {
                self.status = Status::Starting;
                Ok(())
            },
            _ => Err(SupError::StateError),
        }
    }

    /// Records that the spawn succeeded and hands the new process to the
    /// supervisor.  Valid only in Starting with no process recorded yet.
    pub fn spawn_succeeded(&mut self, pid: u64) -> (r: Result<(), SupError>)
        ensures
            old(self).wf() ==> final(self).wf(),
            status_edge(old(self).status, final(self).status),
            old(self).status == Status::Starting && old(self).process is None ==> r is Ok
                && *final(self) == (Supervisor { process: Some(pid), ..*old(self) }),
            !(old(self).status == Status::Starting && old(self).process is None) ==> r == Err::<
                (),
                SupError,
            >(SupError::StateError) && *final(self) == *old(self),
    {
        if matches!(self.status, Status::Starting) && self.process.is_none() {
            self.process = Some(pid);
            Ok(())
        } else {
            Err(SupError::StateError)
        }
    }

    /// Records that the spawn failed: the attempted start is rolled back
    /// to Offline.  Valid only in Starting with no process recorded.
    pub fn spawn_failed(&mut self) -> (r: Result<(), SupError>)
        ensures
            old(self).wf() ==> final(self).wf(),
            status_edge(old(self).status, final(self).status),
            old(self).status == Status::Starting && old(self).process is None ==> r is Ok
                && *final(self) == (Supervisor { status: Status::Offline, ..*old(self) }),
            !(old(self).status == Status::Starting && old(self).process is None) ==> r == Err::<
                (),
                SupError,
            >(SupError::StateError) && *final(self) == *old(self),
    {
        if matches!(self.status, Status::Starting) && self.process.is_none() {
            self.status = Status::Offline;
            Ok(())
        } else {
            Err(SupError::StateError)
        }
    }

    /// Marks an unrecoverable failure of a start or stop in flight: the
    /// status moves to Error and the process is forgotten (the caller is
    /// expected to terminate it forcibly).  Valid from Starting or
    /// Stopping only.
    pub fn mark_failed(&mut self) -> (r: Result<(), SupError>)
        ensures
            old(self).wf() ==> final(self).wf(),
            status_edge(old(self).status, final(self).status),
            (old(self).status == Status::Starting || old(self).status == Status::Stopping) ==> r
                is Ok && *final(self) == (Supervisor {
                status: Status::Error,
                process: None,
                start_time: None,
                players_online: 0,
                players_max: 0,
                stop_ticks_left: 0,
                ..*old(self)
            }),
            !(old(self).status == Status::Starting || old(self).status == Status::Stopping) ==> r
                == Err::<(), SupError>(SupError::StateError) && *final(self) == *old(self),
    {
        if matches!(self.status, Status::Starting | Status::Stopping) {
            self.status = Status::Error;
            self.process = None;
            self.start_time = None;
            self.players_online = 0;
            self.players_max = 0;
            self.stop_ticks_left = 0;
            Ok(())
        } else {
            Err(SupError::StateError)
        }
    }

    /// Validates a console command.  When a process exists the command
    /// line to write — the text with a newline appended — is returned;
    /// with no process this is a `StateError` and nothing is written.
    pub fn request_command(&self, text: &Vec<u8>) -> (r: Result<Vec<u8>, SupError>)
        ensures
            self.process is Some ==> (r matches Ok(v) && v@ == text@.push('\n' as u8)),
            self.process is None ==> r == Err::<Vec<u8>, SupError>(SupError::StateError),
    {
        if self.process.is_some() {
            Ok(console_line(text))
        } else {
            Err(SupError::StateError)
        }
    }

    /// The follow-up console request for the player list: returned when a
    /// process exists, `None` otherwise.
    pub fn request_players(&self) -> (r: Option<Vec<u8>>)
        ensures
            self.process is Some ==> (r matches Some(v) && v@ == lit_list_line()),
            self.process is None ==> r is None,
    {
        if self.process.is_some() {
            Some(bytes_list_line())
        } else {
            None
        }
    }

    /// Requests a stop.  Valid from Online or Starting while a process
    /// exists: the status moves to Stopping, the poll window is set to
    /// `timeout_ticks`, and the shutdown console line to write is
    /// returned.  Otherwise a `StateError`, and nothing changes.
    pub fn request_stop(&mut self, timeout_ticks: u32) -> (r: Result<Vec<u8>, SupError>)
        ensures
            old(self).wf() ==> final(self).wf(),
            status_edge(old(self).status, final(self).status),
            (old(self).status == Status::Online || old(self).status == Status::Starting)
                && old(self).process is Some ==> (r matches Ok(v) && v@ == lit_stop_line()
                && *final(self) == (Supervisor {
                status: Status::Stopping,
                stop_ticks_left: timeout_ticks,
                ..*old(self)
            })),
            !((old(self).status == Status::Online || old(self).status == Status::Starting)
                && old(self).process is Some) ==> r == Err::<Vec<u8>, SupError>(
                SupError::StateError,
            ) && *final(self) == *old(self),
    {
        if matches!(self.status, Status::Online | Status::Starting) && self.process.is_some() {
            self.status = Status::Stopping;
            self.stop_ticks_left = timeout_ticks;
            Ok(bytes_stop_line())
        } else {
            Err(SupError::StateError)
        }
    }

    /// One poll of the stop wait, fed the current liveness observation.
    /// Valid only in Stopping.  A dead process completes the stop: the
    /// process, start time and player counts are cleared and the status
    /// returns to Offline.  A live process consumes one tick of the
    /// window; once the window is exhausted the poll returns a
    /// `TimeoutError` while the supervisor remains Stopping, for the
    /// caller to retry or escalate to forcible termination.
    pub fn stop_tick(&mut self, alive: bool) -> (r: Result<StopPoll, SupError>)
        ensures
            old(self).wf() ==> final(self).wf(),
            status_edge(old(self).status, final(self).status),
            old(self).status != Status::Stopping ==> r == Err::<StopPoll, SupError>(
                SupError::StateError,
            ) && *final(self) == *old(self),
            old(self).status == Status::Stopping && !alive ==> r == Ok::<StopPoll, SupError>(
                StopPoll::Exited,
            ) && *final(self) == (Supervisor {
                status: Status::Offline,
                process: None,
                start_time: None,
                players_online: 0,
                players_max: 0,
                stop_ticks_left: 0,
                ..*old(self)
            }),
            old(self).status == Status::Stopping && alive && old(self).stop_ticks_left <= 1 ==> r
                == Err::<StopPoll, SupError>(SupError::TimeoutError) && *final(self)
                == (Supervisor { stop_ticks_left: 0, ..*old(self) }),
            old(self).status == Status::Stopping && alive && old(self).stop_ticks_left > 1 ==> r
                == Ok::<StopPoll, SupError>(StopPoll::StillWaiting) && *final(self) == (Supervisor {
                stop_ticks_left: (old(self).stop_ticks_left - 1) as u32,
                ..*old(self)
            }),
    {
        if !matches!(self.status, Status::Stopping) {
            return Err(SupError::StateError);
        }
        if !alive {
            self.status = Status::Offline;
            self.process = None;
            self.start_time = None;
            self.players_online = 0;
            self.players_max = 0;
            self.stop_ticks_left = 0;
            Ok(StopPoll::Exited)
        } else if self.stop_ticks_left <= 1 {
            self.stop_ticks_left = 0;
            Err(SupError::TimeoutError)
        } else {
            self.stop_ticks_left = self.stop_ticks_left - 1;
            Ok(StopPoll::StillWaiting)
        }
    }

    /// Processes one line read from the process's standard output: tests
    /// the readiness marker (moving Starting to Online and recording the
    /// start time `now`, at most once per process lifetime), tests the
    /// player-count pattern (updating the last observed counts whatever
    /// the status), and appends the line to the log ring.  The outcome
    /// says which notifications the caller must forward.
    pub fn process_stdout_line(&mut self, line: &Vec<u8>, now: u64) -> (r: LineOutcome)
        ensures
            old(self).wf() ==> final(self).wf(),
            status_edge(old(self).status, final(self).status),
            r.became_ready == (is_ready_line(line@) && old(self).status == Status::Starting
                && old(self).process is Some),
            r.players == player_counts(line@),
            final(self).status == if r.became_ready {
                Status::Online
            } else {
                old(self).status
            },
            final(self).start_time == if r.became_ready {
                Some(now)
            } else {
                old(self).start_time
            },
            match player_counts(line@) {
                Some(p) => final(self).players_online == p.0 && final(self).players_max == p.1,
                None => final(self).players_online == old(self).players_online
                    && final(self).players_max == old(self).players_max,
            },
            final(self).logs@ == ring_append(old(self).logs@, line@),
            final(self).process == old(self).process,
            final(self).stop_ticks_left == old(self).stop_ticks_left,
    {
        let mut became_ready = false;
        if ready_line(line) && matches!(self.status, Status::Starting) && self.process.is_some() {
            self.status = Status::Online;
            self.start_time = Some(now);
            became_ready = true;
        }
        let players = parse_player_line(line);
        if let Some((n, m)) = players {
            self.players_online = n;
            self.players_max = m;
        }
        self.logs.push_log(copy_bytes(line));
        LineOutcome { became_ready, players }
    }

    /// Processes one line read from the process's standard error: the
    /// line, prefixed to mark its origin, is appended to the log ring.
    /// Nothing else changes.
    pub fn process_stderr_line(&mut self, line: &Vec<u8>)
        ensures
            old(self).wf() ==> final(self).wf(),
            final(self).logs@ == ring_append(old(self).logs@, lit_error_prefix() + line@),
            final(self).status == old(self).status,
            final(self).process == old(self).process,
            final(self).start_time == old(self).start_time,
            final(self).players_online == old(self).players_online,
            final(self).players_max == old(self).players_max,
            final(self).stop_ticks_left == old(self).stop_ticks_left,
    {
        let mut tagged = bytes_error_prefix();
        append_bytes(&mut tagged, line);
        self.logs.push_log(tagged);
    }

    /// The current status.
    pub fn get_status(&self) -> (r: Status)
        ensures
            r == self.status,
    {
        self.status
    }

    /// The last observed player counts, `(online, max)`.
    pub fn get_players(&self) -> (r: (u32, u32))
        ensures
            r.0 == self.players_online,
            r.1 == self.players_max,
    {
        (self.players_online, self.players_max)
    }

    /// A snapshot view of the log ring's lines, oldest first.
    pub fn get_logs(&self) -> (r: &Vec<Vec<u8>>)
        ensures
            r@.len() == self.logs@.len(),
            forall|i: int| 0 <= i < r@.len() ==> r@[i]@ == self.logs@[i],
    {
        &self.logs.entries
    }

    /// Seconds elapsed since readiness was observed: zero while no start
    /// time is recorded (and on a clock that moved backwards).
    pub fn uptime_seconds(&self, now_secs: u64) -> (r: u64)
        ensures
            self.start_time is None ==> r == 0,
            self.start_time matches Some(s) ==> r == if now_secs >= s {
                now_secs - s
            } else {
                0
            },
    {
        match self.start_time {
            None => 0,
            Some(s) => {
                if now_secs >= s {
                    now_secs - s
                } else {
                    0
                }
            },
        }
    }

    /// Resident memory of the supervised process, in kilobytes, decided
    /// from a status report the caller read for the recorded PID: zero
    /// while no process is running, and zero — never an error — when the
    /// report could not be read or carries no readable figure.
    pub fn resident_kb(&self, report_lines: &Option<Vec<Vec<u8>>>) -> (r: u64)
        ensures
            self.process is None ==> r == 0,
            self.process is Some ==> r == match report_lines {
                Some(ls) => vm_rss_kb_of_report(ls@),
                None => 0,
            },
    {
        if self.process.is_none() {
            return 0;
        }
        match report_lines {
            Some(ls) => vm_rss_kb(ls),
            None => 0,
        }
    }
}

/// The console line written for a command: the text with a newline
/// appended.
pub fn console_line(text: &Vec<u8>) -> (r: Vec<u8>)
    ensures
        r@ == text@.push('\n' as u8),
{
    let mut out = copy_bytes(text);
    out.push('\n' as u8);
    out
}

/// `"ERROR: "` as bytes.
pub fn bytes_error_prefix() -> (r: Vec<u8>)
    ensures
        r@ == lit_error_prefix(),
{
    let v: Vec<u8> = vec!['E' as u8, 'R' as u8, 'R' as u8, 'O' as u8, 'R' as u8, ':' as u8,
        ' ' as u8];
    proof {
        assert(v@ =~= lit_error_prefix());
    }
    v
}

/// `"stop\n"` as bytes.
pub fn bytes_stop_line() -> (r: Vec<u8>)
    ensures
        r@ == lit_stop_line(),
{
    let v: Vec<u8> = vec!['s' as u8, 't' as u8, 'o' as u8, 'p' as u8, '\n' as u8];
    proof {
        assert(v@ =~= lit_stop_line());
    }
    v
}

/// `"list\n"` as bytes.
pub fn bytes_list_line() -> (r: Vec<u8>)
    ensures
        r@ == lit_list_line(),
{
    let v: Vec<u8> = vec!['l' as u8, 'i' as u8, 's' as u8, 't' as u8, '\n' as u8];
    proof {
        assert(v@ =~= lit_list_line());
    }
    v
}

} // verus!
