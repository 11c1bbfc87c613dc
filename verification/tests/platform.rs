//! Processes, signals and the shutdown flag.
use nflow_daemon::platform::{
    classify, get_pid_start_time, is_process_alive, is_shutting_down, outcome_alive,
    reset_shutdown_flag, send_signal, signal_handler, signal_result,
    terminate_agent_process_sigterm, verify_process, KillOutcome, ProcessState, SendSignalResult,
    ShutdownFlag, Signal,
};

/// A process id that no process has.
const NO_PROCESS: u32 = 4_000_000_000;

/// What `/proc` says of a process that started at 8675.
const STAT: &str =
    "42 (a (b) c) S 1 42 42 0 -1 4194560 1234 0 0 0 10 5 0 0 20 0 1 0 8675 1000 200 18446744";

fn this_process() -> u32 {
    nix::unistd::getpid().as_raw() as u32
}

#[test]
fn test_is_process_alive_current() {
    assert!(is_process_alive(this_process()));
}

#[test]
fn test_is_process_alive_dead() {
    assert!(!is_process_alive(NO_PROCESS));
}

#[test]
fn platform_test_verify_process_dead_pid() {
    let state = verify_process(NO_PROCESS, Some(12345), None);
    assert_eq!(state, ProcessState::Dead);
}

#[test]
fn platform_test_verify_process_alive_current_process() {
    // Without a start time to compare, should return Alive
    let state = verify_process(this_process(), None, Some(STAT));
    assert_eq!(state, ProcessState::Alive);
}

#[test]
fn platform_test_verify_process_alive_matching_start_time() {
    let actual_start_time = get_pid_start_time(Some(STAT));
    assert!(actual_start_time.is_some(), "should read the start time");
    let state = verify_process(this_process(), actual_start_time, Some(STAT));
    assert_eq!(state, ProcessState::Alive);
}

#[test]
fn platform_test_verify_process_pid_reused() {
    // Use a bogus start time that definitely won't match
    let state = verify_process(this_process(), Some(-999), Some(STAT));
    assert_eq!(state, ProcessState::PidReused);
}

#[test]
fn test_get_pid_start_time_current_process() {
    let start_time = get_pid_start_time(Some(STAT));
    assert!(start_time.is_some());
    assert!(start_time.unwrap() > 0);
    assert_eq!(start_time, Some(8675));
}

#[test]
fn test_get_pid_start_time_nonexistent() {
    let start_time = get_pid_start_time(None);
    assert!(start_time.is_none());
}

#[test]
fn a_stat_that_cannot_be_read_has_no_start_time() {
    assert_eq!(get_pid_start_time(Some("")), None);
    assert_eq!(get_pid_start_time(Some("no parenthesis at all")), None);
    // too few fields
    assert_eq!(get_pid_start_time(Some("42 (a) S 1 2 3")), None);
    // the twentieth field is no number
    let fields = "42 (a) 1 2 3 4 5 6 7 8 9 10 11 12 13 14 15 16 17 18 19 x 21";
    assert_eq!(get_pid_start_time(Some(fields)), None);
}

#[test]
fn test_send_signal_dead_pid() {
    let result = send_signal(NO_PROCESS, Signal::Sigterm);
    assert_eq!(result, SendSignalResult::NoSuchProcess);
}

#[test]
fn terminating_a_dead_process_is_harmless() {
    terminate_agent_process_sigterm(NO_PROCESS);
    assert_eq!(send_signal(NO_PROCESS, Signal::Sigkill), SendSignalResult::NoSuchProcess);
    assert_eq!(send_signal(NO_PROCESS, Signal::Sighup), SendSignalResult::NoSuchProcess);
    assert_eq!(send_signal(NO_PROCESS, Signal::Sigint), SendSignalResult::NoSuchProcess);
}

#[test]
fn a_number_that_is_no_process_id_names_no_process() {
    for pid in [i32::MAX as u32 + 1, u32::MAX] {
        assert!(!is_process_alive(pid));
        assert_eq!(send_signal(pid, Signal::Sighup), SendSignalResult::NoSuchProcess);
        assert_eq!(verify_process(pid, None, Some(STAT)), ProcessState::Dead);
    }
}

#[test]
fn outcomes_of_signals_are_reported() {
    assert_eq!(signal_result(KillOutcome::Delivered), SendSignalResult::Sent);
    assert_eq!(signal_result(KillOutcome::NoSuchProcess), SendSignalResult::NoSuchProcess);
    assert_eq!(signal_result(KillOutcome::NotPermitted), SendSignalResult::PermissionDenied);
    assert_eq!(signal_result(KillOutcome::OtherError), SendSignalResult::NoSuchProcess);
    assert!(outcome_alive(KillOutcome::Delivered));
    assert!(outcome_alive(KillOutcome::NotPermitted));
    assert!(!outcome_alive(KillOutcome::NoSuchProcess));
    assert!(!outcome_alive(KillOutcome::OtherError));
}

#[test]
fn only_a_known_difference_means_reuse() {
    assert_eq!(classify(false, Some(1), Some(2)), ProcessState::Dead);
    assert_eq!(classify(true, Some(1), Some(2)), ProcessState::PidReused);
    assert_eq!(classify(true, Some(1), Some(1)), ProcessState::Alive);
    assert_eq!(classify(true, None, Some(1)), ProcessState::Alive);
    assert_eq!(classify(true, Some(1), None), ProcessState::Alive);
}

#[test]
fn test_send_signal_result_debug() {
    assert_eq!(format!("{:?}", SendSignalResult::Sent), "Sent");
    assert_eq!(format!("{:?}", SendSignalResult::NoSuchProcess), "NoSuchProcess");
    assert_eq!(format!("{:?}", SendSignalResult::PermissionDenied), "PermissionDenied");
}

#[test]
fn test_signal_handler_and_shutdown_flag() {
    // 1. Reset flag
    let mut flag = ShutdownFlag::new();
    reset_shutdown_flag(&mut flag);
    assert!(!is_shutting_down(&flag));

    // 2. Call the handler (simulating a signal)
    signal_handler(&mut flag, Signal::Sigterm);
    assert!(is_shutting_down(&flag));

    // 3. Reset again
    reset_shutdown_flag(&mut flag);
    assert!(!is_shutting_down(&flag));
}

#[test]
fn the_flag_tells_of_a_signal_since_the_last_reset() {
    let mut flag = ShutdownFlag::new();
    let mut told = vec![is_shutting_down(&flag)];
    for step in ["handle", "read", "handle", "reset", "read", "reset", "handle", "read"] {
        match step {
            "handle" => signal_handler(&mut flag, Signal::Sigint),
            "reset" => reset_shutdown_flag(&mut flag),
            _ => assert_eq!(is_shutting_down(&flag), flag.set),
        }
        told.push(is_shutting_down(&flag));
    }
    assert_eq!(told, vec![false, true, true, true, false, false, false, true, true]);
}

#[test]
fn test_signal_clone_copy() {
    let s = Signal::Sigterm;
    let s2 = s;
    let s3 = s.clone();
    assert_eq!(s, s2);
    assert_eq!(s, s3);
}
