//! Processes: the command line of a started process, and stopping a
//! process by its number.

use vstd::prelude::*;
use nix::errno::Errno;
use nix::sys::signal::Signal;
use nix::unistd::Pid;
use crate::error::{ToolError, ToolFailure};
use crate::text::{append_decimal, decimal, texts};

verus! {

/// A process that was started.
#[derive(Debug, Clone, PartialEq, Eq)]
pub struct ProcessHandle {
    pub pid: u32,
    pub command: String,
}

/// The texts of `parts` with one space between each two.
pub open spec fn spaced(parts: Seq<Seq<char>>) -> Seq<char>
    decreases parts.len(),
{
    if parts.len() == 0 {
        Seq::empty()
    } else if parts.len() == 1 {
        parts[0]
    } else {
        spaced(parts.drop_last()) + " "@ + parts.last()
    }
}

/// The command line that a process handle shows: the command, a space,
/// and the arguments with a space between each two.
pub fn command_line(command: &str, args: &Vec<String>) -> (line: String)
    ensures
        line@ == command@ + " "@ + spaced(texts(args@)),
{
    let mut line = String::from_str(command);
    line.append(" ");
    let ghost head = line@;
    let mut i: usize = 0;
    while i < args.len()
        invariant
            0 <= i <= args@.len(),
            head == command@ + " "@,
            line@ == head + spaced(texts(args@).subrange(0, i as int)),
        decreases args@.len() - i,
    {
        let ghost before = texts(args@).subrange(0, i as int);
        let ghost after = texts(args@).subrange(0, i + 1);
        proof {
            assert(after.drop_last() =~= before);
            assert(after.last() == args@[i as int]@);
        }
        if i > 0 {
            line.append(" ");
        }
        line.append(args[i].as_str());
        proof {
            if i == 0 {
                assert(before =~= Seq::<Seq<char>>::empty());
                assert(line@ =~= head + spaced(after));
            } else {
                assert(line@ =~= head + spaced(after));
            }
        }
        i += 1;
    }
    proof {
        assert(texts(args@).subrange(0, i as int) =~= texts(args@));
    }
    line
}

/// The failure of starting `command`, which could not be started for the
/// reason `detail`.
pub open spec fn spawn_failure(command: Seq<char>, detail: Seq<char>) -> ToolFailure {
    ToolFailure::generic("Failed to spawn process '"@ + command + "': "@ + detail)
}

/// The error for a command that could not be started for the reason
/// `detail`.
pub fn spawn_failed(command: &str, detail: &str) -> (error: ToolError)
    ensures
        error@ == spawn_failure(command@, detail@),
{
    let mut reason = String::from_str("Failed to spawn process '");
    reason.append(command);
    reason.append("': ");
    reason.append(detail);
    ToolError::generic(reason)
}

/// nix's error number. Opaque here.
#[verifier::external_type_specification]
#[verifier::external_body]
pub struct ExErrno(Errno);

/// nix's signals.
#[verifier::external_type_specification]
pub struct ExSignal(Signal);

/// Trusted: `nix::sys::signal::kill` asks the operating system to send
/// `signal`, or only to check that it could be sent where there is none,
/// to the process or process group that `pid` stands for. Nothing is
/// claimed of how that goes.
#[verifier::external_body]
fn send_signal(pid: i32, signal: Option<Signal>) -> (sent: Result<(), Errno>) {
    nix::sys::signal::kill(Pid::from_raw(pid), signal)
}

/// The process number as the operating system is given it: the same 32
/// bits read as a signed number.
pub open spec fn raw_pid(pid: u32) -> int {
    if pid <= i32::MAX {
        pid as int
    } else {
        pid - 0x1_0000_0000
    }
}

/// A whole number in decimal, with a minus sign where it is negative.
pub open spec fn signed_decimal(n: int) -> Seq<char> {
    if n < 0 {
        "-"@ + decimal((-n) as nat)
    } else {
        decimal(n as nat)
    }
}

/// The failure of stopping the process `pid`, where the request to end
/// failed for the reason `detail` and the forced stop failed too.
pub open spec fn kill_failure(pid: u32, detail: Seq<char>) -> ToolFailure {
    ToolFailure::generic(
        "Failed to kill process "@ + signed_decimal(raw_pid(pid)) + ": "@ + detail,
    )
}

/// The process number as the operating system is given it.
fn raw_pid_of(pid: u32) -> (raw: i32)
    ensures
        raw == raw_pid(pid),
{
    if pid <= 0x7fff_ffff {
        pid as i32
    } else {
        (pid as i64 - 0x1_0000_0000) as i32
    }
}

/// What stopping a process comes to once the request to end has failed
/// for the reason `detail`: success where the forced stop went through,
/// and else a failure that quotes `detail`.
pub fn kill_fallback(pid: u32, detail: &str, forced: bool) -> (outcome: Result<(), ToolError>)
    ensures
        match outcome {
            Ok(_) => forced,
            Err(error) => !forced && error@ == kill_failure(pid, detail@),
        },
{
    if forced {
        Ok(())
    } else {
        let raw = raw_pid_of(pid);
        let mut reason = String::from_str("Failed to kill process ");
        if raw < 0 {
            reason.append("-");
            append_decimal(&mut reason, (-(raw as i64)) as u64);
        } else {
            append_decimal(&mut reason, raw as u64);
        }
        reason.append(": ");
        reason.append(detail);
        assert(reason@ =~= "Failed to kill process "@ + signed_decimal(raw_pid(pid)) + ": "@
            + detail@);
        Err(ToolError::generic(reason))
    }
}

/// What the request to end a process came to: nothing where the request
/// was accepted, so that the process is taken to be stopped and no force
/// is used, and else the reason for which it was refused.
pub fn request_outcome(requested: Result<(), Errno>) -> (refusal: Option<String>)
    ensures
        refusal is None <==> requested is Ok,
{
    match requested {
        Ok(_) => None,
        Err(refused) => Some(refused.to_string()),
    }
}

/// Stops the process `pid`: asks it to end, and stops it by force where
/// that request fails.
///
/// The number is handed to the operating system as a signed number, so
/// zero and the numbers above 2147483647 stand for groups of processes.
/// How the signals go depends on the machine. A failure always quotes the
/// reason for which the request to end failed.
pub fn kill_process(pid: u32) -> (outcome: Result<(), ToolError>)
    ensures
        outcome matches Err(error) ==> exists|detail: Seq<char>|
            error@ == kill_failure(pid, detail),
{
    let raw = raw_pid_of(pid);
    match request_outcome(send_signal(raw, Some(Signal::SIGTERM))) {
        None => Ok(()),
        Some(detail) => {
            let forced = send_signal(raw, Some(Signal::SIGKILL));
            kill_fallback(pid, detail.as_str(), forced.is_ok())
        },
    }
}

/// What the check of a process comes to, from what the operating system
/// said to the request to check it: the process runs where the request
/// was accepted, and does not where it was refused, for whatever reason.
pub fn probe_outcome(answer: Result<(), Errno>) -> (outcome: Result<bool, ToolError>)
    ensures
        outcome == Ok::<bool, ToolError>(answer is Ok),
{
    match answer {
        Ok(_) => Ok(true),
        Err(_) => Ok(false),
    }
}

/// Whether a process `pid` exists that this process may signal. No
/// signal is sent. The outcome is never a failure.
pub fn is_process_running(pid: u32) -> (outcome: Result<bool, ToolError>)
    ensures
        outcome is Ok,
{
    probe_outcome(send_signal(raw_pid_of(pid), None))
}

} // verus!
