//! The trace-loop state machine: the decisions the tracer takes at every
//! process-state notification and at every resume outcome, kept apart from
//! the process-control calls that gather them.

use vstd::prelude::*;
use vstd::string::StringExecFns;
use crate::arch::{Arch, termination_id_spec, termination_syscall_id};
use crate::stats::{bumped, zero_stats, Session, SyscallEntry};

verus! {

/// How a finished session ended.
#[derive(Clone, Copy, PartialEq, Eq, Structural, Debug)]
pub enum SessionEnd {
    /// The child exited normally with the given code.
    Exited { code: i32 },
    /// The child was killed by the given signal.
    Signaled { signal: i32 },
    /// The child vanished between its termination call and the next resume
    /// request: the expected benign race, a clean end of session.
    Vanished,
}

/// The failures that abort a session.
#[derive(Clone, Copy, PartialEq, Eq, Structural, Debug)]
pub enum TraceError {
    /// The target executable could not be launched at all.
    Spawn,
    /// Waiting for a process-state change failed.
    Wait,
    /// The register snapshot could not be read at a stop.
    RegisterRead,
    /// Requesting continuation failed, other than the benign race after the
    /// termination call.
    Resume,
}

impl TraceError {
    /// A short description of the failure.
    pub fn describe(&self) -> (s: String)
        ensures
            s@ == match self {
                TraceError::Spawn => "spawn error"@,
                TraceError::Wait => "wait error"@,
                TraceError::RegisterRead => "register read error"@,
                TraceError::Resume => "resume error"@,
            },
    {
        match self {
            TraceError::Spawn => String::from_str("spawn error"),
            TraceError::Wait => String::from_str("wait error"),
            TraceError::RegisterRead => String::from_str("register read error"),
            TraceError::Resume => String::from_str("resume error"),
        }
    }
}

/// The two registers the tracer reads out of a stop's register snapshot:
/// the syscall-number register and the return-value register.
#[derive(Clone, Copy, PartialEq, Eq, Structural, Debug)]
pub struct RegSnapshot {
    pub syscall_id: u64,
    pub return_value: i64,
}

/// One blocking wait's outcome, classified.
#[derive(Clone, Copy, PartialEq, Eq, Structural, Debug)]
pub enum Notification {
    /// A syscall-boundary stop, with the registers and the clock read at
    /// the stop.
    Boundary { regs: RegSnapshot, now_us: u64 },
    /// A stop whose register snapshot could not be read.
    BoundaryRegsUnavailable,
    /// The child exited normally.
    Exit { code: i32 },
    /// The child was killed by a signal.
    Killed { signal: i32 },
    /// The wait itself failed.
    WaitFailed,
}

/// One resume request's outcome, classified.
#[derive(Clone, Copy, PartialEq, Eq, Structural, Debug)]
pub enum ResumeOutcome {
    Resumed,
    /// The process id no longer exists.
    ProcessGone,
    Failed,
}

/// What the loop around the machine must do next.
#[derive(Clone, Copy, PartialEq, Eq, Structural, Debug)]
pub enum Directive {
    /// Resume the child toward the next syscall boundary.
    Resume,
    /// Print the live trace line for this syscall entry, then resume.
    EmitAndResume { syscall_id: u64 },
    /// The session is over; stop the loop.
    Halt,
}

/// Where the machine stands between notifications.
#[derive(Clone, Copy, PartialEq, Eq, Structural, Debug)]
pub enum Phase {
    /// The image-load stop right after launch has not arrived yet; it is
    /// consumed by a plain resume, never treated as a syscall.
    AwaitingInitialStop,
    /// The child is running; the next boundary stop is a syscall entry.
    AwaitingEntry,
    /// A syscall entry was seen; the next boundary stop is its exit.
    /// `pre_counted` marks the termination call, recorded at entry.
    AwaitingExit { syscall_id: u64, entry_us: u64, pre_counted: bool },
    /// Terminal: the session ended.
    Exited { end: SessionEnd },
    /// Terminal: the session aborted.
    Failed { error: TraceError },
}

/// The elapsed time between the entry and the exit reading of the
/// monotonic clock, in microseconds; a reading that did not advance counts
/// as zero.
pub open spec fn elapsed_us_spec(entry_us: u64, now_us: u64) -> u64 {
    if now_us >= entry_us {
        (now_us - entry_us) as u64
    } else {
        0
    }
}

/// The whole state the trace loop carries between notifications.
pub struct TraceState {
    pub phase: Phase,
    pub session: Session,
    /// The identifier of the last syscall whose entry stop was observed.
    pub last_entry_id: Option<u64>,
    /// The identifier of the process-termination call on this architecture.
    pub term_id: u64,
    /// Whether every syscall entry prints a live trace line.
    pub live: bool,
}

impl TraceState {
    /// The state is sound as long as its session is.
    pub open spec fn inv(self) -> bool {
        self.session.inv()
    }

    /// Whether the machine still expects notifications.
    pub open spec fn is_running(self) -> bool {
        match self.phase {
            Phase::AwaitingInitialStop => true,
            Phase::AwaitingEntry => true,
            Phase::AwaitingExit { .. } => true,
            Phase::Exited { .. } => false,
            Phase::Failed { .. } => false,
        }
    }

    /// A fresh machine for one session on `arch`: no observation yet, the
    /// image-load stop still to come.
    pub fn start(arch: Arch, live: bool) -> (st: TraceState)
        ensures
            st.inv(),
            st.is_running(),
            st.phase == Phase::AwaitingInitialStop,
            st.session.rows() == Seq::<SyscallEntry>::empty(),
            st.session.total_count() == 0,
            st.last_entry_id is None,
            st.term_id == termination_id_spec(arch),
            st.live == live,
    {
        TraceState {
            phase: Phase::AwaitingInitialStop,
            session: Session::new(),
            last_entry_id: None,
            term_id: termination_syscall_id(arch),
            live,
        }
    }

    /// Takes one classified notification and moves the machine: an exit or
    /// a signal ends the session cleanly; a wait failure or an unreadable
    /// register snapshot aborts it; a boundary stop is consumed silently
    /// after launch, opens a timing window at an entry, and closes it with
    /// one recorded observation at the matching exit. The termination call
    /// is recorded once at its entry, with no elapsed time, and its exit
    /// stop (if any arrives) is not recorded again. The total number of
    /// observations never shrinks, and it is at least one from the first
    /// recorded observation on.
    pub fn on_notification(&mut self, n: Notification) -> (d: Directive)
        requires
            old(self).inv(),
            old(self).is_running(),
        ensures
            final(self).inv(),
            final(self).term_id == old(self).term_id,
            final(self).live == old(self).live,
            d is Halt <==> !final(self).is_running(),
            final(self).session.total_count() >= old(self).session.total_count(),
            final(self).session != old(self).session ==> final(self).session.total_count() >= 1,
            match n {
                Notification::Exit { code } => {
                    &&& final(self).phase == (Phase::Exited { end: SessionEnd::Exited { code } })
                    &&& final(self).session == old(self).session
                    &&& final(self).last_entry_id == old(self).last_entry_id
                    &&& d == Directive::Halt
                },
                Notification::Killed { signal } => {
                    &&& final(self).phase == (Phase::Exited {
                        end: SessionEnd::Signaled { signal },
                    })
                    &&& final(self).session == old(self).session
                    &&& final(self).last_entry_id == old(self).last_entry_id
                    &&& d == Directive::Halt
                },
                Notification::WaitFailed => {
                    &&& final(self).phase == (Phase::Failed { error: TraceError::Wait })
                    &&& final(self).session == old(self).session
                    &&& final(self).last_entry_id == old(self).last_entry_id
                    &&& d == Directive::Halt
                },
                Notification::BoundaryRegsUnavailable => {
                    &&& final(self).phase == (Phase::Failed { error: TraceError::RegisterRead })
                    &&& final(self).session == old(self).session
                    &&& final(self).last_entry_id == old(self).last_entry_id
                    &&& d == Directive::Halt
                },
                Notification::Boundary { regs, now_us } => match old(self).phase {
                    Phase::AwaitingInitialStop => {
                        &&& final(self).phase == Phase::AwaitingEntry
                        &&& final(self).session == old(self).session
                        &&& final(self).last_entry_id == old(self).last_entry_id
                        &&& d == Directive::Resume
                    },
                    Phase::AwaitingEntry => {
                        &&& final(self).phase == (Phase::AwaitingExit {
                            syscall_id: regs.syscall_id,
                            entry_us: now_us,
                            pre_counted: regs.syscall_id == old(self).term_id,
                        })
                        &&& final(self).last_entry_id == Some(regs.syscall_id)
                        &&& regs.syscall_id == old(self).term_id ==> final(self).session.stats_map() == old(self).session.stats_map().insert(
                            regs.syscall_id,
                            bumped(
                                if old(self).session.contains_id(regs.syscall_id) {
                                    old(self).session.stats_map()[regs.syscall_id]
                                } else {
                                    zero_stats()
                                },
                                0,
                                false,
                            ),
                        )
                        &&& regs.syscall_id != old(self).term_id ==> final(self).session == old(self).session
                        &&& d == if old(self).live {
                            Directive::EmitAndResume { syscall_id: regs.syscall_id }
                        } else {
                            Directive::Resume
                        }
                    },
                    Phase::AwaitingExit { syscall_id, entry_us, pre_counted } => {
                        &&& final(self).phase == Phase::AwaitingEntry
                        &&& final(self).last_entry_id == old(self).last_entry_id
                        &&& pre_counted ==> final(self).session == old(self).session
                        &&& !pre_counted ==> final(self).session.stats_map() == old(self).session.stats_map().insert(
                            syscall_id,
                            bumped(
                                if old(self).session.contains_id(syscall_id) {
                                    old(self).session.stats_map()[syscall_id]
                                } else {
                                    zero_stats()
                                },
                                elapsed_us_spec(entry_us, now_us),
                                regs.return_value < 0,
                            ),
                        )
                        &&& d == Directive::Resume
                    },
                    _ => false,
                },
            },
    {
        match n {
            Notification::Exit { code } => {
                self.phase = Phase::Exited { end: SessionEnd::Exited { code } };
                Directive::Halt
            },
            Notification::Killed { signal } => {
                self.phase = Phase::Exited { end: SessionEnd::Signaled { signal } };
                Directive::Halt
            },
            Notification::WaitFailed => {
                self.phase = Phase::Failed { error: TraceError::Wait };
                Directive::Halt
            },
            Notification::BoundaryRegsUnavailable => {
                self.phase = Phase::Failed { error: TraceError::RegisterRead };
                Directive::Halt
            },
            Notification::Boundary { regs, now_us } => match self.phase {
                Phase::AwaitingInitialStop => {
                    self.phase = Phase::AwaitingEntry;
                    Directive::Resume
                },
                Phase::AwaitingEntry => {
                    let pre_counted = regs.syscall_id == self.term_id;
                    if pre_counted {
                        self.session.record(regs.syscall_id, 0, false);
                    }
                    self.phase = Phase::AwaitingExit {
                        syscall_id: regs.syscall_id,
                        entry_us: now_us,
                        pre_counted,
                    };
                    self.last_entry_id = Some(regs.syscall_id);
                    if self.live {
                        Directive::EmitAndResume { syscall_id: regs.syscall_id }
                    } else {
                        Directive::Resume
                    }
                },
                Phase::AwaitingExit { syscall_id, entry_us, pre_counted } => {
                    if !pre_counted {
                        let elapsed = if now_us >= entry_us {
                            now_us - entry_us
                        } else {
                            0
                        };
                        self.session.record(syscall_id, elapsed, regs.return_value < 0);
                    }
                    self.phase = Phase::AwaitingEntry;
                    Directive::Resume
                },
                _ => Directive::Halt,
            },
        }
    }

    /// Takes one resume outcome: success keeps the machine where it was; a
    /// vanished process id is the clean end of the session when the last
    /// observed entry was the termination call, and a fatal resume failure
    /// otherwise, as is any other resume failure.
    pub fn on_resume(&mut self, outcome: ResumeOutcome)
        requires
            old(self).inv(),
            old(self).is_running(),
        ensures
            final(self).inv(),
            final(self).session == old(self).session,
            final(self).last_entry_id == old(self).last_entry_id,
            final(self).term_id == old(self).term_id,
            final(self).live == old(self).live,
            match outcome {
                ResumeOutcome::Resumed => final(self).phase == old(self).phase,
                ResumeOutcome::ProcessGone => final(self).phase == if old(self).last_entry_id
                    == Some(old(self).term_id) {
                    Phase::Exited { end: SessionEnd::Vanished }
                } else {
                    Phase::Failed { error: TraceError::Resume }
                },
                ResumeOutcome::Failed => final(self).phase == (Phase::Failed {
                    error: TraceError::Resume,
                }),
            },
    {
        match outcome {
            ResumeOutcome::Resumed => {},
            ResumeOutcome::ProcessGone => {
                let benign = match self.last_entry_id {
                    Some(id) => id == self.term_id,
                    None => false,
                };
                if benign {
                    self.phase = Phase::Exited { end: SessionEnd::Vanished };
                } else {
                    self.phase = Phase::Failed { error: TraceError::Resume };
                }
            },
            ResumeOutcome::Failed => {
                self.phase = Phase::Failed { error: TraceError::Resume };
            },
        }
    }

    /// Whether the machine has reached a terminal phase.
    pub fn halted(&self) -> (h: bool)
        ensures
            h == !self.is_running(),
    {
        match self.phase {
            Phase::Exited { .. } => true,
            Phase::Failed { .. } => true,
            _ => false,
        }
    }
}

} // verus!
