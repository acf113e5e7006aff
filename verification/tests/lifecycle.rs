use minecraft_server_manager::status::{Status, SupError};
use minecraft_server_manager::supervisor::{StopPoll, Supervisor};

fn line(s: &str) -> Vec<u8> {
    s.as_bytes().to_vec()
}

fn online_supervisor(pid: u64, now: u64) -> Supervisor {
    let mut sup = Supervisor::new();
    sup.request_start().unwrap();
    sup.spawn_succeeded(pid).unwrap();
    let ready = line("[Server] Done (3.2s)! For help, type \"help\"");
    let outcome = sup.process_stdout_line(&ready, now);
    assert!(outcome.became_ready);
    assert_eq!(sup.get_status(), Status::Online);
    sup
}

#[test]
fn fresh_supervisor_is_offline() {
    let sup = Supervisor::new();
    assert_eq!(sup.get_status(), Status::Offline);
    assert_eq!(sup.get_players(), (0, 0));
    assert_eq!(sup.uptime_seconds(500), 0);
    assert!(sup.get_logs().is_empty());
}

#[test]
fn start_moves_offline_to_starting() {
    let mut sup = Supervisor::new();
    assert_eq!(sup.request_start(), Ok(()));
    assert_eq!(sup.get_status(), Status::Starting);
}

#[test]
fn start_while_starting_or_online_is_state_error() {
    let mut sup = Supervisor::new();
    sup.request_start().unwrap();
    assert_eq!(sup.request_start(), Err(SupError::StateError));
    assert_eq!(sup.get_status(), Status::Starting);
    sup.spawn_succeeded(41).unwrap();
    assert_eq!(sup.request_start(), Err(SupError::StateError));
    let outcome = sup.process_stdout_line(&line("Done (1.0s)!"), 7);
    assert!(outcome.became_ready);
    assert_eq!(sup.get_status(), Status::Online);
    assert_eq!(sup.request_start(), Err(SupError::StateError));
    assert_eq!(sup.get_status(), Status::Online);
}

#[test]
fn spawn_succeeded_requires_starting() {
    let mut sup = Supervisor::new();
    assert_eq!(sup.spawn_succeeded(9), Err(SupError::StateError));
    sup.request_start().unwrap();
    assert_eq!(sup.spawn_succeeded(9), Ok(()));
    assert_eq!(sup.spawn_succeeded(10), Err(SupError::StateError));
    assert_eq!(sup.process, Some(9));
}

#[test]
fn spawn_failure_rolls_back_to_offline() {
    let mut sup = Supervisor::new();
    sup.request_start().unwrap();
    assert_eq!(sup.spawn_failed(), Ok(()));
    assert_eq!(sup.get_status(), Status::Offline);
    assert_eq!(sup.process, None);
    assert_eq!(sup.request_start(), Ok(()));
}

#[test]
fn send_command_while_offline_is_state_error() {
    let sup = Supervisor::new();
    let r = sup.request_command(&line("say hello"));
    assert_eq!(r, Err(SupError::StateError));
}

#[test]
fn send_command_with_process_appends_newline() {
    let sup = online_supervisor(17, 1000);
    let r = sup.request_command(&line("say hello")).unwrap();
    assert_eq!(r, line("say hello\n"));
}

#[test]
fn send_command_tolerated_while_starting_with_process() {
    let mut sup = Supervisor::new();
    sup.request_start().unwrap();
    sup.spawn_succeeded(3).unwrap();
    assert_eq!(sup.request_command(&line("list")).unwrap(), line("list\n"));
}

#[test]
fn request_players_only_with_process() {
    let sup = Supervisor::new();
    assert_eq!(sup.request_players(), None);
    let sup = online_supervisor(17, 1000);
    assert_eq!(sup.request_players(), Some(line("list\n")));
}

#[test]
fn stop_succeeds_when_process_exits_within_window() {
    let mut sup = online_supervisor(23, 100);
    sup.process_stdout_line(&line("There are 3 of a max of 20 players online"), 101);
    assert_eq!(sup.get_players(), (3, 20));
    let cmd = sup.request_stop(15).unwrap();
    assert_eq!(cmd, line("stop\n"));
    assert_eq!(sup.get_status(), Status::Stopping);
    assert_eq!(sup.stop_tick(true), Ok(StopPoll::StillWaiting));
    assert_eq!(sup.stop_tick(true), Ok(StopPoll::StillWaiting));
    assert_eq!(sup.stop_tick(false), Ok(StopPoll::Exited));
    assert_eq!(sup.get_status(), Status::Offline);
    assert_eq!(sup.process, None);
    assert_eq!(sup.start_time, None);
    assert_eq!(sup.get_players(), (0, 0));
}

#[test]
fn stop_times_out_when_process_never_exits() {
    let mut sup = online_supervisor(23, 100);
    sup.request_stop(15).unwrap();
    for _ in 0..14 {
        assert_eq!(sup.stop_tick(true), Ok(StopPoll::StillWaiting));
    }
    assert_eq!(sup.stop_tick(true), Err(SupError::TimeoutError));
    assert_eq!(sup.get_status(), Status::Stopping);
    assert!(sup.process.is_some());
}

#[test]
fn stop_from_offline_is_state_error() {
    let mut sup = Supervisor::new();
    assert_eq!(sup.request_stop(15), Err(SupError::StateError));
    assert_eq!(sup.get_status(), Status::Offline);
}

#[test]
fn stop_tick_outside_stopping_is_state_error() {
    let mut sup = Supervisor::new();
    assert_eq!(sup.stop_tick(false), Err(SupError::StateError));
}

#[test]
fn restart_start_fails_fast_while_process_remains() {
    // A stop that timed out leaves the supervisor Stopping with its
    // process; an immediate new start must be refused rather than
    // spawning on top of the still-running process.
    let mut sup = online_supervisor(23, 100);
    sup.request_stop(1).unwrap();
    assert_eq!(sup.stop_tick(true), Err(SupError::TimeoutError));
    assert_eq!(sup.request_start(), Err(SupError::StateError));
}

#[test]
fn mark_failed_moves_to_error_and_is_terminal() {
    let mut sup = Supervisor::new();
    sup.request_start().unwrap();
    assert_eq!(sup.mark_failed(), Ok(()));
    assert_eq!(sup.get_status(), Status::Error);
    assert_eq!(sup.process, None);
    assert_eq!(sup.request_start(), Err(SupError::StateError));
    assert_eq!(sup.mark_failed(), Err(SupError::StateError));
}

#[test]
fn mark_failed_from_stopping() {
    let mut sup = online_supervisor(23, 100);
    sup.request_stop(15).unwrap();
    assert_eq!(sup.mark_failed(), Ok(()));
    assert_eq!(sup.get_status(), Status::Error);
}

#[test]
fn ready_line_moves_starting_to_online_and_records_start_time() {
    let mut sup = Supervisor::new();
    sup.request_start().unwrap();
    sup.spawn_succeeded(88).unwrap();
    let outcome = sup.process_stdout_line(&line("[Server] Done (3.2s)! For help, type \"help\""), 424242);
    assert!(outcome.became_ready);
    assert_eq!(sup.get_status(), Status::Online);
    assert_eq!(sup.start_time, Some(424242));
    assert_eq!(sup.uptime_seconds(424245), 3);
}

#[test]
fn ready_line_fires_only_once_per_lifetime() {
    let mut sup = Supervisor::new();
    sup.request_start().unwrap();
    sup.spawn_succeeded(88).unwrap();
    let outcome = sup.process_stdout_line(&line("Done (3.2s)!"), 10);
    assert!(outcome.became_ready);
    let outcome = sup.process_stdout_line(&line("Done (3.2s)!"), 99);
    assert!(!outcome.became_ready);
    assert_eq!(sup.start_time, Some(10));
}

#[test]
fn ready_line_outside_starting_does_not_transition() {
    let mut sup = Supervisor::new();
    let outcome = sup.process_stdout_line(&line("Done (3.2s)!"), 10);
    assert!(!outcome.became_ready);
    assert_eq!(sup.get_status(), Status::Offline);
    assert_eq!(sup.start_time, None);
}

#[test]
fn player_line_updates_counts_and_notifies_once_regardless_of_status() {
    let mut sup = Supervisor::new();
    let outcome = sup.process_stdout_line(&line("There are 3 of a max of 20 players online"), 5);
    assert_eq!(outcome.players, Some((3, 20)));
    assert!(!outcome.became_ready);
    assert_eq!(sup.get_players(), (3, 20));
    assert_eq!(sup.get_status(), Status::Offline);
}

#[test]
fn stdout_and_stderr_lines_reach_the_log() {
    let mut sup = Supervisor::new();
    sup.process_stdout_line(&line("plain output"), 0);
    sup.process_stderr_line(&line("boom"));
    let logs = sup.get_logs();
    assert_eq!(logs.len(), 2);
    assert_eq!(logs[0], line("plain output"));
    assert_eq!(logs[1], line("ERROR: boom"));
}

#[test]
fn empty_stdout_line_is_only_logged() {
    let mut sup = Supervisor::new();
    let outcome = sup.process_stdout_line(&line(""), 1);
    assert!(!outcome.became_ready);
    assert_eq!(outcome.players, None);
    assert_eq!(sup.get_logs().len(), 1);
    assert_eq!(sup.get_logs()[0], line(""));
}

#[test]
fn error_messages_name_each_failure() {
    assert_eq!(SupError::StateError.message(), "operation invalid in current status");
    assert_eq!(SupError::SpawnError.message(), "failed to launch the server process");
    assert_eq!(SupError::WriteError.message(), "server process input pipe is closed");
    assert_eq!(SupError::TimeoutError.message(), "server did not stop in time");
}
