//! Processes and signals: whether a process lives, whether it is still the one it was, and the
//! flag that asks the daemon to shut down.
use vstd::prelude::*;
use crate::text::{after_last, parse_i64, split_words};

verus! {

/// The signals that the daemon sends and handles.
#[derive(Debug, Clone, Copy, PartialEq, Eq, Structural)]
pub enum Signal {
    /// Graceful termination request.
    Sigterm,
    /// Immediate, unblockable kill.
    Sigkill,
    /// Hangup, used when the daemon goes to the background.
    Sighup,
    /// Interrupt, used to end a daemon in the foreground.
    Sigint,
}

/// Result of sending a signal to a process.
#[derive(Debug, Clone, Copy, PartialEq, Eq, Structural)]
pub enum SendSignalResult {
    /// Signal was delivered successfully.
    Sent,
    /// Process does not exist.
    NoSuchProcess,
    /// Permission denied.
    PermissionDenied,
}

/// State of a process after verification.
#[derive(Debug, Clone, Copy, PartialEq, Eq, Structural)]
pub enum ProcessState {
    /// Process is alive and start time matches the recorded value.
    Alive,
    /// Process is dead (no such process).
    Dead,
    /// The process id exists but belongs to a process that started at another time.
    PidReused,
}

/// What became of a signal.
#[derive(Debug, Clone, Copy, PartialEq, Eq, Structural)]
pub enum KillOutcome {
    Delivered,
    NoSuchProcess,
    NotPermitted,
    OtherError,
}

/// Whether `outcome` is among what `nix::sys::signal::kill` can come back with when it is asked
/// to send `signal` to `pid`, or with none only to look whether it could.
pub uninterp spec fn kill_can_give(pid: i32, signal: Option<Signal>, outcome: KillOutcome) -> bool;

/// `nix::sys::signal::kill`: sends the signal to the process, or with none only looks whether
/// it could. What comes back is one of the outcomes of that call; which of them depends on the
/// processes of the machine, and is left unsaid.
#[verifier::external_body]
fn nix_kill(pid: i32, signal: Option<Signal>) -> (r: KillOutcome)
    ensures
        kill_can_give(pid, signal, r),
{
    let signal = signal.map(|s| match s {
        Signal::Sigterm => nix::sys::signal::Signal::SIGTERM,
        Signal::Sigkill => nix::sys::signal::Signal::SIGKILL,
        Signal::Sighup => nix::sys::signal::Signal::SIGHUP,
        Signal::Sigint => nix::sys::signal::Signal::SIGINT,
    });
    match nix::sys::signal::kill(nix::unistd::Pid::from_raw(pid), signal) {
        Ok(()) => KillOutcome::Delivered,
        Err(nix::errno::Errno::ESRCH) => KillOutcome::NoSuchProcess,
        Err(nix::errno::Errno::EPERM) => KillOutcome::NotPermitted,
        Err(_) => KillOutcome::OtherError,
    }
}

/// How the outcome of a signal is reported: an error that is not about permission counts as a
/// process that does not exist.
pub open spec fn reported(outcome: KillOutcome) -> SendSignalResult {
    match outcome {
        KillOutcome::Delivered => SendSignalResult::Sent,
        KillOutcome::NotPermitted => SendSignalResult::PermissionDenied,
        _ => SendSignalResult::NoSuchProcess,
    }
}

pub fn signal_result(outcome: KillOutcome) -> (r: SendSignalResult)
    ensures
        r == reported(outcome),
{
    match outcome {
        KillOutcome::Delivered => SendSignalResult::Sent,
        KillOutcome::NoSuchProcess => SendSignalResult::NoSuchProcess,
        KillOutcome::NotPermitted => SendSignalResult::PermissionDenied,
        KillOutcome::OtherError => SendSignalResult::NoSuchProcess,
    }
}

/// Whether a process lives, by the outcome of a signal that only looks: it does even where the
/// signal is not permitted.
pub open spec fn is_alive(outcome: KillOutcome) -> bool {
    outcome == KillOutcome::Delivered || outcome == KillOutcome::NotPermitted
}

pub fn outcome_alive(outcome: KillOutcome) -> (r: bool)
    ensures
        r == is_alive(outcome),
{
    match outcome {
        KillOutcome::Delivered | KillOutcome::NotPermitted => true,
        _ => false,
    }
}

/// Send a signal to a process: the report is of an outcome of sending this signal to this
/// process. No process has a greater id than `i32::MAX`, and such a one is sent nothing.
pub fn send_signal(pid: u32, signal: Signal) -> (r: SendSignalResult)
    ensures
        pid > i32::MAX ==> r == SendSignalResult::NoSuchProcess,
        pid <= i32::MAX ==> exists|outcome: KillOutcome|
            #[trigger] kill_can_give(pid as i32, Some(signal), outcome) && r == reported(outcome),
{
    if pid > i32::MAX as u32 {
        return SendSignalResult::NoSuchProcess;
    }
    signal_result(nix_kill(pid as i32, Some(signal)))
}

/// Whether the process exists, even without permission to signal it: by an outcome of looking
/// whether this process could be sent a signal. No process has a greater id than `i32::MAX`.
pub fn is_process_alive(pid: u32) -> (r: bool)
    ensures
        pid > i32::MAX ==> !r,
        pid <= i32::MAX ==> exists|outcome: KillOutcome|
            #[trigger] kill_can_give(pid as i32, None, outcome) && r == is_alive(outcome),
{
    if pid > i32::MAX as u32 {
        return false;
    }
    outcome_alive(nix_kill(pid as i32, None))
}

/// Send SIGTERM to an agent process, whatever comes of it.
pub fn terminate_agent_process_sigterm(pid: u32) {
    let _ = send_signal(pid, Signal::Sigterm);
}

/// The start time in the text of `/proc/<pid>/stat`: the twentieth word after the last closing
/// parenthesis, which ends the name of the process.
pub open spec fn start_time(stat: Seq<char>) -> Option<i64> {
    match crate::text::last_position(stat, ')') {
        Some(i) => {
            let fields = crate::text::words(stat.skip(i + 1));
            if fields.len() < 20 {
                None
            } else {
                crate::text::signed_value(fields[19])
            }
        },
        None => None,
    }
}

/// The start time of a process, given the text of its `/proc/<pid>/stat` where it could be
/// read.
pub fn get_pid_start_time(stat: Option<&str>) -> (r: Option<i64>)
    ensures
        r == (match stat {
            Some(s) => start_time(s@),
            None => None,
        }),
{
    match stat {
        Some(s) => match after_last(s, ')') {
            Some(rest) => {
                let fields = split_words(rest);
                let ghost views = fields@.map_values(|w: String| w@);
                if fields.len() < 20 {
                    return None;
                }
                assert(views[19] == fields@[19]@);
                parse_i64(fields[19].as_str())
            },
            None => None,
        },
        None => None,
    }
}

/// The state of a process: `expected` is the recorded start time and `actual` the present one,
/// each where it is known. What cannot be verified is taken to be alive.
pub open spec fn process_state(
    alive: bool,
    expected: Option<i64>,
    actual: Option<i64>,
) -> ProcessState {
    if !alive {
        ProcessState::Dead
    } else if expected is Some && actual is Some && expected != actual {
        ProcessState::PidReused
    } else {
        ProcessState::Alive
    }
}

/// The state of a process of which it is known whether it lives.
pub fn classify(alive: bool, expected: Option<i64>, actual: Option<i64>) -> (r: ProcessState)
    ensures
        r == process_state(alive, expected, actual),
{
    if !alive {
        return ProcessState::Dead;
    }
    match (expected, actual) {
        (Some(e), Some(a)) => if e == a {
            ProcessState::Alive
        } else {
            ProcessState::PidReused
        },
        _ => ProcessState::Alive,
    }
}

/// Verify the state of a process given its id, its expected start time and the text of its
/// `/proc/<pid>/stat` where it could be read.
pub fn verify_process(pid: u32, expected_start_time: Option<i64>, stat: Option<&str>) -> (r:
    ProcessState)
    ensures
        pid > i32::MAX ==> r == ProcessState::Dead,
        pid <= i32::MAX ==> exists|outcome: KillOutcome|
            #[trigger] kill_can_give(pid as i32, None, outcome) && r == process_state(
                is_alive(outcome),
                expected_start_time,
                match stat {
                    Some(s) => start_time(s@),
                    None => None,
                },
            ),
{
    let alive = is_process_alive(pid);
    classify(alive, expected_start_time, get_pid_start_time(stat))
}

/// A live process is taken for another one exactly if both start times are known and differ.
pub proof fn law_only_a_known_difference_means_reuse(
    alive: bool,
    expected: Option<i64>,
    actual: Option<i64>,
)
    ensures
        process_state(alive, expected, actual) == ProcessState::Dead <==> !alive,
        process_state(alive, expected, actual) == ProcessState::PidReused <==> alive && (expected
            matches Some(e) && actual matches Some(a) && e != a),
        process_state(alive, None, actual) != ProcessState::PidReused,
        process_state(alive, expected, None) != ProcessState::PidReused,
{
}

// ---- shutdown ----

/// Whether a shutdown has been asked for.
#[derive(Debug, Clone, Copy, PartialEq, Eq, Structural)]
pub struct ShutdownFlag {
    pub set: bool,
}

impl ShutdownFlag {
    pub fn new() -> (r: ShutdownFlag)
        ensures
            !r.set,
    {
        ShutdownFlag { set: false }
    }
}

/// What can be done with the flag.
pub enum FlagUse {
    Handle(Signal),
    Reset,
    Read,
}

impl FlagUse {
    /// Whether the flag is `after` once this is done.
    pub open spec fn leads(self, before: ShutdownFlag, after: ShutdownFlag) -> bool {
        match self {
            FlagUse::Handle(_) => after.set,
            FlagUse::Reset => !after.set,
            FlagUse::Read => after == before,
        }
    }
}

/// What a handled signal does: it asks for a shutdown.
pub fn signal_handler(flag: &mut ShutdownFlag, _signal: Signal)
    ensures
        FlagUse::Handle(_signal).leads(*old(flag), *final(flag)),
{
    flag.set = true;
}

/// Returns true if a shutdown signal has been received.
pub fn is_shutting_down(flag: &ShutdownFlag) -> (r: bool)
    ensures
        r == flag.set,
{
    flag.set
}

/// Reset the shutdown flag.
pub fn reset_shutdown_flag(flag: &mut ShutdownFlag)
    ensures
        FlagUse::Reset.leads(*old(flag), *final(flag)),
{
    flag.set = false;
}

/// Whether `flags` are the states of a flag that is new at first and then used so.
pub open spec fn is_history(uses: Seq<FlagUse>, flags: Seq<ShutdownFlag>) -> bool {
    &&& flags.len() == uses.len() + 1
    &&& !flags[0].set
    &&& forall|i: int|
        0 <= i < uses.len() ==> (#[trigger] uses[i]).leads(flags[i], flags[i + 1])
}

/// Whether the use at `i`, among the first `n`, is the handling of a signal without a reset after
/// it.
pub open spec fn handled_at(uses: Seq<FlagUse>, n: int, i: int) -> bool {
    &&& 0 <= i < n
    &&& uses[i] is Handle
    &&& forall|j: int| i < j < n ==> !(#[trigger] uses[j] is Reset)
}

/// After the first `n` uses of any history, the flag is set exactly if a signal was handled after
/// the last reset, or at all where there was none; whichever signal it was.
pub proof fn law_the_flag_tells_of_a_signal_since_the_last_reset(
    uses: Seq<FlagUse>,
    flags: Seq<ShutdownFlag>,
    n: int,
)
    requires
        is_history(uses, flags),
        0 <= n <= uses.len(),
    ensures
        flags[n].set <==> exists|i: int| handled_at(uses, n, i),
    decreases n,
{
    if n > 0 {
        let m = n - 1;
        law_the_flag_tells_of_a_signal_since_the_last_reset(uses, flags, m);
        assert(uses[m].leads(flags[m], flags[m + 1]));
        if exists|i: int| handled_at(uses, m, i) {
            let i = choose|i: int| handled_at(uses, m, i);
            assert(!(uses[m] is Reset) ==> handled_at(uses, n, i));
        }
        if exists|i: int| handled_at(uses, n, i) {
            let i = choose|i: int| handled_at(uses, n, i);
            assert(i < m ==> handled_at(uses, m, i));
            assert(i < m ==> !(uses[m] is Reset));
        }
        assert(uses[m] is Handle ==> handled_at(uses, n, m));
    }
}

} // verus!
