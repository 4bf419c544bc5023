//! Classification of a reaped child's raw wait status.

use crate::rusage::{rusage_spec, RssUnit, Rusage};
use crate::text::{decimal_spec, signed_decimal_spec, to_decimal, to_signed_decimal};
use nix::sys::wait::WaitStatus;
use nix::unistd::Pid;
use vstd::prelude::*;

verus! {

#[verifier::external_type_specification]
#[verifier::external_body]
pub struct ExNixError(nix::Error);

/// The highest signal number that the wait-status decoder accepts, plus one.
pub const SIGNAL_LIMIT: i32 = 32;

/// The stop signal that marks a system-call stop under ptrace (SIGTRAP | 0x80).
pub const SYSCALL_STOP_SIGNAL: i32 = 0x85;

/// `WIFEXITED`: the child terminated normally.
pub open spec fn status_exited(s: i32) -> bool {
    (s & 0x7f) == 0
}

/// `WEXITSTATUS`: the low eight bits of the child's exit code.
pub open spec fn exit_code_of(s: i32) -> i32 {
    (s >> 8) & 0xff
}

/// `WIFSIGNALED`: the low seven bits hold a signal number, neither 0 nor 0x7f.
pub open spec fn status_signaled(s: i32) -> bool {
    (s & 0x7f) != 0 && (s & 0x7f) != 0x7f
}

/// `WTERMSIG`: the signal that terminated the child.
pub open spec fn term_signal_of(s: i32) -> i32 {
    s & 0x7f
}

/// `WCOREDUMP`: the child left a core dump.
pub open spec fn core_dumped_of(s: i32) -> bool {
    (s & 0x80) != 0
}

/// `WIFSTOPPED`: the child was stopped by a signal.
pub open spec fn status_stopped(s: i32) -> bool {
    (s & 0xff) == 0x7f
}

/// `WSTOPSIG`: the signal that stopped the child.
pub open spec fn stop_signal_of(s: i32) -> i32 {
    (s >> 8) & 0xff
}

/// `WIFCONTINUED`: the child was resumed.
pub open spec fn status_continued(s: i32) -> bool {
    s == 0xffff
}

/// A raw status falls into one of the four kinds that a wait can report.
pub open spec fn status_is_decodable(s: i32) -> bool {
    status_exited(s) || status_signaled(s) || status_stopped(s) || status_continued(s)
}

/// A signal number that the decoder turns into a named signal.
pub open spec fn known_signal(n: i32) -> bool {
    0 < n < SIGNAL_LIMIT
}

/// How a decoded wait status says the child ended.
#[derive(Clone, Copy, Debug, PartialEq, Eq, Structural)]
pub enum Termination {
    Exited(i32),
    Signaled(i32, bool),
    NotExited,
}

/// What decoding a raw status yields: `None` where it names an unknown signal.
pub open spec fn decoded_spec(s: i32) -> Option<Termination> {
    if status_exited(s) {
        Some(Termination::Exited(exit_code_of(s)))
    } else if status_signaled(s) {
        if known_signal(term_signal_of(s)) {
            Some(Termination::Signaled(term_signal_of(s), core_dumped_of(s)))
        } else {
            None
        }
    } else if status_stopped(s) {
        if stop_signal_of(s) == SYSCALL_STOP_SIGNAL || known_signal(stop_signal_of(s)) {
            Some(Termination::NotExited)
        } else {
            None
        }
    } else {
        Some(Termination::NotExited)
    }
}

/// Relies on nix's `WaitStatus::from_raw`: it tests the status with libc's Linux
/// `WIFEXITED`, `WIFSIGNALED`, `WIFSTOPPED` and `WIFCONTINUED` in that order, turns
/// the signal number into a `Signal` only when it lies in `1..NSIG` (`NSIG` is 32)
/// and fails otherwise, and panics on a status of none of the four kinds.
#[verifier::external_body]
fn decode_wait_status(pid: i32, status: i32) -> (r: Option<Termination>)
    requires
        status_is_decodable(status),
    ensures
        r == decoded_spec(status),
{
    match WaitStatus::from_raw(Pid::from_raw(pid), status) {
        Ok(WaitStatus::Exited(_, code)) => Some(Termination::Exited(code)),
        Ok(WaitStatus::Signaled(_, signal, core)) => Some(Termination::Signaled(signal as i32, core)),
        Ok(_) => Some(Termination::NotExited),
        Err(_) => None,
    }
}

/// What a successfully supervised child that exited with code 0 reports.
#[derive(Clone, Copy, Debug, PartialEq, Eq, Structural)]
pub struct ChildExitStatus {
    pub usage: Rusage,
    /// Wall-clock time from the start of the run to the reap, in microseconds.
    pub wall_time: u64,
}

/// A child that a signal terminated.
#[derive(Clone, Copy, Debug, PartialEq, Eq, Structural)]
pub struct ProcessSignalInfo {
    pub pid: i32,
    pub signal: i32,
    pub coredump: bool,
}

/// How one supervised run ended. These are outcomes of the program that ran, not
/// failures of the supervision.
#[derive(Clone, Copy, Debug, PartialEq, Eq, Structural)]
pub enum RunOutcome {
    Success(ChildExitStatus),
    ExitCode { code: i32, pid: i32 },
    /// The deadline passed first; `elapsed` is the time waited, in microseconds.
    TimedOut { elapsed: u64 },
    Signaled(ProcessSignalInfo),
}

/// A failure to supervise a child.
#[derive(Debug)]
pub enum WaitError {
    /// Waiting for the child failed in the operating system.
    OsError(nix::Error),
    /// The child was stopped or resumed rather than terminated.
    NotExited,
    /// The raw status names a signal that the decoder does not know.
    InvalidStatus(i32),
    /// A CPU time in the usage record is negative or out of range.
    MalformedUsage,
}

impl From<nix::Error> for WaitError {
    fn from(err: nix::Error) -> (r: WaitError)
        ensures
            r == WaitError::OsError(err),
    {
        WaitError::OsError(err)
    }
}

impl vstd::std_specs::convert::FromSpecImpl<nix::Error> for WaitError {
    open spec fn obeys_from_spec() -> bool {
        true
    }

    open spec fn from_spec(v: nix::Error) -> WaitError {
        WaitError::OsError(v)
    }
}

/// Relies on nix's `Display` for its `Error`: the errno's name and description.
#[verifier::external_body]
fn nix_error_text(e: &nix::Error) -> (r: String) {
    e.to_string()
}

impl WaitError {
    /// A human-readable account of the failure. For an OS error it is `OS error: `
    /// followed by the error's own rendering.
    pub fn message(&self) -> (r: String)
        ensures
            match *self {
                WaitError::OsError(_) => "OS error: "@.is_prefix_of(r@),
                WaitError::NotExited => r@ == "process stopped or resumed, but not exited"@,
                WaitError::InvalidStatus(s) => r@ == "invalid wait status "@ + signed_decimal_spec(s as int),
                WaitError::MalformedUsage => r@ == "malformed resource usage"@,
            },
    {
        match self {
            WaitError::OsError(e) => {
                let mut r = String::from_str("OS error: ");
                let text = nix_error_text(e);
                r.append(text.as_str());
                r
            },
            WaitError::NotExited => String::from_str("process stopped or resumed, but not exited"),
            WaitError::InvalidStatus(s) => {
                let mut r = String::from_str("invalid wait status ");
                let n = to_signed_decimal(*s as i64);
                r.append(n.as_str());
                r
            },
            WaitError::MalformedUsage => String::from_str("malformed resource usage"),
        }
    }
}

impl RunOutcome {
    /// The account of this outcome that `message` renders.
    pub open spec fn message_spec(&self) -> Seq<char> {
        match *self {
            RunOutcome::Success(_) => "process exited successfully"@,
            RunOutcome::ExitCode { code, pid } => "process exited with non-zero exit code ("@
                + signed_decimal_spec(code as int) + "). was "@ + signed_decimal_spec(pid as int),
            RunOutcome::TimedOut { elapsed } => "process timed out in "@ + decimal_spec(
                elapsed as nat,
            ) + "us"@,
            RunOutcome::Signaled(info) => "process killed by signal "@ + signed_decimal_spec(
                info.signal as int,
            ) + (if info.coredump {
                " (core dumped)"@
            } else {
                ""@
            }) + ". was "@ + signed_decimal_spec(info.pid as int),
        }
    }

    /// A human-readable account of how the run ended.
    pub fn message(&self) -> (r: String)
        ensures
            r@ == self.message_spec(),
    {
        match self {
            RunOutcome::Success(_) => String::from_str("process exited successfully"),
            RunOutcome::ExitCode { code, pid } => {
                let mut r = String::from_str("process exited with non-zero exit code (");
                r.append(to_signed_decimal(*code as i64).as_str());
                r.append("). was ");
                r.append(to_signed_decimal(*pid as i64).as_str());
                r
            },
            RunOutcome::TimedOut { elapsed } => {
                let mut r = String::from_str("process timed out in ");
                r.append(to_decimal(*elapsed).as_str());
                r.append("us");
                r
            },
            RunOutcome::Signaled(info) => {
                let mut r = String::from_str("process killed by signal ");
                r.append(to_signed_decimal(info.signal as i64).as_str());
                if info.coredump {
                    r.append(" (core dumped)");
                } else {
                    proof {
                        reveal_strlit("");
                        assert(r@ + ""@ =~= r@);
                    }
                }
                r.append(". was ");
                r.append(to_signed_decimal(info.pid as i64).as_str());
                r
            },
        }
    }
}

/// What a reaped child's raw status and usage record classify as.
pub open spec fn classify_spec(
    pid: i32,
    status: i32,
    usage: nix::libc::rusage,
    unit: RssUnit,
    wall_time: u64,
) -> Result<RunOutcome, WaitError> {
    if !status_is_decodable(status) {
        Err(WaitError::NotExited)
    } else {
        match decoded_spec(status) {
            Some(Termination::Exited(code)) => if code == 0 {
                match rusage_spec(usage, unit) {
                    Some(u) => Ok(RunOutcome::Success(ChildExitStatus { usage: u, wall_time })),
                    None => Err(WaitError::MalformedUsage),
                }
            } else {
                Ok(RunOutcome::ExitCode { code, pid })
            },
            Some(Termination::Signaled(signal, coredump)) => Ok(
                RunOutcome::Signaled(ProcessSignalInfo { pid, signal, coredump }),
            ),
            Some(Termination::NotExited) => Err(WaitError::NotExited),
            None => Err(WaitError::InvalidStatus(status)),
        }
    }
}

/// Maps the raw status of a reaped child, with its usage record and the wall-clock
/// time of the run, to how the run ended: exit code 0 is success, another exit code is
/// `ExitCode`, a terminating signal is `Signaled`, and a stop or resume is an error.
pub fn classify(
    pid: i32,
    status: i32,
    usage: &nix::libc::rusage,
    unit: RssUnit,
    wall_time: u64,
) -> (r: Result<RunOutcome, WaitError>)
    ensures
        r == classify_spec(pid, status, *usage, unit, wall_time),
{
    let undecodable = (status & 0xff) == 0xff && status != 0xffff;
    assert(undecodable == !status_is_decodable(status)) by (bit_vector)
        requires
            undecodable == ((status & 0xff) == 0xff && status != 0xffff),
    ;
    if undecodable {
        return Err(WaitError::NotExited);
    }
    match decode_wait_status(pid, status) {
        Some(Termination::Exited(code)) => {
            if code == 0 {
                match Rusage::from_raw(usage, unit) {
                    Some(u) => Ok(RunOutcome::Success(ChildExitStatus { usage: u, wall_time })),
                    None => Err(WaitError::MalformedUsage),
                }
            } else {
                Ok(RunOutcome::ExitCode { code, pid })
            }
        },
        Some(Termination::Signaled(signal, coredump)) => Ok(
            RunOutcome::Signaled(ProcessSignalInfo { pid, signal, coredump }),
        ),
        Some(Termination::NotExited) => Err(WaitError::NotExited),
        None => Err(WaitError::InvalidStatus(status)),
    }
}

/// A child that exits with a nonzero code `code` (its raw status is `code << 8`) is
/// classified as `ExitCode { code }`, never as success.
pub proof fn lemma_exit_code_fidelity(
    pid: i32,
    code: i32,
    usage: nix::libc::rusage,
    unit: RssUnit,
    wall_time: u64,
)
    requires
        0 < code < 256,
    ensures
        classify_spec(pid, code << 8, usage, unit, wall_time) == Ok::<RunOutcome, WaitError>(
            RunOutcome::ExitCode { code, pid },
        ),
{
    let s = code << 8;
    assert((s & 0x7f) == 0 && ((s >> 8) & 0xff) == code) by (bit_vector)
        requires
            0 < code < 256,
            s == code << 8,
    ;
}

/// A child that the signal `signal` terminates, with or without a core dump, is
/// classified as `Signaled` with that signal and that core-dump flag.
pub proof fn lemma_signal_fidelity(
    pid: i32,
    signal: i32,
    coredump: bool,
    usage: nix::libc::rusage,
    unit: RssUnit,
    wall_time: u64,
)
    requires
        known_signal(signal),
    ensures
        classify_spec(pid, signal | (if coredump { 0x80i32 } else { 0i32 }), usage, unit, wall_time)
            == Ok::<RunOutcome, WaitError>(
            RunOutcome::Signaled(ProcessSignalInfo { pid, signal, coredump }),
        ),
{
    let s = signal | (if coredump { 0x80i32 } else { 0i32 });
    if coredump {
        assert((s & 0x7f) == signal && (s & 0x80) != 0 && (s & 0xff) != 0xff) by (bit_vector)
            requires
                0 < signal < 32,
                s == signal | 0x80,
        ;
    } else {
        assert((s & 0x7f) == signal && (s & 0x80) == 0 && (s & 0xff) != 0xff) by (bit_vector)
            requires
                0 < signal < 32,
                s == signal | 0,
        ;
    }
}

} // verus!
