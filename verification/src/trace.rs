//! The trace loop runner: the process-control calls behind trusted
//! wrappers, their outcomes classified and fed to the verified state
//! machine, one rendezvous of resume and blocking wait at a time.

use vstd::prelude::*;
use vstd::string::StringExecFns;
use std::io::Write;
use crate::arch::Arch;
use crate::machine::{
    Directive, Notification, Phase, RegSnapshot, ResumeOutcome, SessionEnd, TraceError, TraceState,
};
use crate::report::live_line;
use crate::stats::Session;

verus! {

/// One blocking wait's raw outcome.
#[derive(Clone, Copy, PartialEq, Eq, Structural, Debug)]
enum WaitOutcome {
    /// The child stopped; with no wait options requested, any stop of a
    /// ptrace-attached child is a boundary stop to this tracer.
    Stopped,
    Exited { code: i32 },
    Signaled { signal: i32 },
    Failed,
}

/// Relies on `nix::sys::wait::waitpid` with no options: blocks until the
/// traced child changes state, and reports which of exit, signal death or
/// stop the kernel delivered.
#[verifier::external_body]
fn wait_for_process(pid: i32) -> (r: WaitOutcome)
{
    match nix::sys::wait::waitpid(nix::unistd::Pid::from_raw(pid), None) {
        Ok(nix::sys::wait::WaitStatus::Exited(_, code)) => WaitOutcome::Exited { code },
        Ok(nix::sys::wait::WaitStatus::Signaled(_, signal, _)) => WaitOutcome::Signaled {
            signal: signal as i32,
        },
        Ok(_) => WaitOutcome::Stopped,
        Err(_) => WaitOutcome::Failed,
    }
}

/// Relies on `nix::sys::ptrace::syscall`: asks the kernel to resume the
/// traced child until the next syscall boundary, delivering no signal. A
/// vanished process id is reported apart from every other failure.
#[verifier::external_body]
fn resume_until_syscall(pid: i32) -> (r: ResumeOutcome)
{
    match nix::sys::ptrace::syscall(nix::unistd::Pid::from_raw(pid), None) {
        Ok(()) => ResumeOutcome::Resumed,
        Err(nix::errno::Errno::ESRCH) => ResumeOutcome::ProcessGone,
        Err(_) => ResumeOutcome::Failed,
    }
}

/// Relies on `nix::sys::ptrace::getregs`: snapshots the stopped child's
/// registers and hands over the syscall-number register and the
/// return-value register, the two this tracer reads.
#[verifier::external_body]
fn read_syscall_regs(pid: i32) -> (r: Option<RegSnapshot>)
{
    match nix::sys::ptrace::getregs(nix::unistd::Pid::from_raw(pid)) {
        Ok(regs) => Some(
            RegSnapshot { syscall_id: regs.orig_rax, return_value: regs.rax as i64 },
        ),
        Err(_) => None,
    }
}

/// Relies on `nix::time::clock_gettime` on the monotonic clock, whose
/// nanosecond field always lies in [0, 1_000_000_000).
#[verifier::external_body]
fn monotonic_clock_parts() -> (r: (i64, i64))
    ensures
        0 <= r.1 < 1_000_000_000,
{
    match nix::time::clock_gettime(nix::time::ClockId::CLOCK_MONOTONIC) {
        Ok(ts) => (ts.tv_sec(), ts.tv_nsec()),
        Err(_) => (0, 0),
    }
}

/// Relies on `writeln!` to standard output: prints one finished line of
/// trace output, unbuffered between lines.
#[verifier::external_body]
fn emit_line(s: &str)
{
    let mut out = std::io::stdout();
    let _ = writeln!(out, "{}", s);
}

/// A clock reading `(sec, nsec)` as whole microseconds, clamped into
/// `u64`: a negative reading counts as zero, an overflowing one as the
/// largest representable value.
pub open spec fn micros_of_parts_spec(sec: i64, nsec: i64) -> u64 {
    let total = sec * 1000000 + nsec / 1000;
    if total < 0 {
        0
    } else if total > u64::MAX {
        u64::MAX
    } else {
        total as u64
    }
}

/// Converts a clock reading to clamped whole microseconds.
fn micros_of_parts(sec: i64, nsec: i64) -> (us: u64)
    requires
        0 <= nsec < 1000000000,
    ensures
        us == micros_of_parts_spec(sec, nsec),
{
    let wide: i128 = (sec as i128) * 1000000 + (nsec as i128) / 1000;
    if wide < 0 {
        0
    } else if wide > u64::MAX as i128 {
        u64::MAX
    } else {
        wide as u64
    }
}

/// Reads the monotonic clock as clamped whole microseconds.
fn now_micros() -> (us: u64)
{
    let parts = monotonic_clock_parts();
    micros_of_parts(parts.0, parts.1)
}

/// Performs one blocking wait and classifies what came back, reading the
/// register snapshot and the clock when the child stopped at a boundary.
fn next_notification(pid: i32) -> (n: Notification)
{
    match wait_for_process(pid) {
        WaitOutcome::Exited { code } => Notification::Exit { code },
        WaitOutcome::Signaled { signal } => Notification::Killed { signal },
        WaitOutcome::Failed => Notification::WaitFailed,
        WaitOutcome::Stopped => match read_syscall_regs(pid) {
            None => Notification::BoundaryRegsUnavailable,
            Some(regs) => Notification::Boundary { regs, now_us: now_micros() },
        },
    }
}

/// Everything a finished session reports: the aggregated statistics, how
/// the child ended, and the session's wall-clock duration.
pub struct TraceReport {
    pub session: Session,
    pub end: SessionEnd,
    pub wall_us: u64,
}

/// Traces the already-stopped child `pid` until it exits: alternates one
/// blocking wait and one resume request, feeds every outcome to the state
/// machine, prints a live line per syscall entry when `live` holds, and
/// hands back the aggregated session. Every failure other than the benign
/// post-termination race aborts the session with its error; a spawn
/// failure can never arise here, the child being already spawned. A
/// session of more notifications than a 64-bit counter holds is given up
/// as a wait failure.
pub fn run_trace(pid: i32, arch: Arch, live: bool) -> (r: Result<TraceReport, TraceError>)
    ensures
        match r {
            Ok(rep) => rep.session.inv(),
            Err(e) => !(e is Spawn),
        },
{
    let start_us = now_micros();
    let mut st = TraceState::start(arch, live);
    let mut fuel: u64 = u64::MAX;
    while fuel > 0
        invariant_except_break
            st.is_running(),
        invariant
            st.inv(),
        ensures
            st.inv(),
            match st.phase {
                Phase::Failed { error } => !(error is Spawn),
                _ => true,
            },
        decreases fuel,
    {
        fuel = fuel - 1;
        let n = next_notification(pid);
        match st.on_notification(n) {
            Directive::Halt => {
                break ;
            },
            Directive::EmitAndResume { syscall_id } => {
                let line = live_line(arch, syscall_id);
                emit_line(line.as_str());
            },
            Directive::Resume => {},
        }
        let outcome = resume_until_syscall(pid);
        st.on_resume(outcome);
        if st.halted() {
            break ;
        }
    }
    let wall_us = {
        let end_us = now_micros();
        if end_us >= start_us {
            end_us - start_us
        } else {
            0
        }
    };
    match st.phase {
        Phase::Exited { end } => Ok(TraceReport { session: st.session, end, wall_us }),
        Phase::Failed { error } => Err(error),
        _ => Err(TraceError::Wait),
    }
}

} // verus!
