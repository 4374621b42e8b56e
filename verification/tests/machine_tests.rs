use like_strace::arch::Arch;
use like_strace::machine::{
    Directive, Notification, Phase, RegSnapshot, ResumeOutcome, SessionEnd, TraceError, TraceState,
};
use like_strace::stats::Session;

fn boundary(id: u64, ret: i64, now_us: u64) -> Notification {
    Notification::Boundary {
        regs: RegSnapshot {
            syscall_id: id,
            return_value: ret,
        },
        now_us,
    }
}

/// Feeds one complete entry/exit pair for `id` and resumes after each stop.
fn pair(st: &mut TraceState, id: u64, ret: i64, entry_us: u64, exit_us: u64) {
    let d = st.on_notification(boundary(id, 0, entry_us));
    assert!(d == Directive::Resume || matches!(d, Directive::EmitAndResume { .. }));
    st.on_resume(ResumeOutcome::Resumed);
    let d = st.on_notification(boundary(id, ret, exit_us));
    assert_eq!(d, Directive::Resume);
    st.on_resume(ResumeOutcome::Resumed);
}

#[test]
fn no_syscalls_terminates_cleanly() {
    // A child that exits without one observed syscall beyond startup still
    // ends the loop in the exited phase with no rows.
    let mut st = TraceState::start(Arch::X86_64, false);
    assert_eq!(st.phase, Phase::AwaitingInitialStop);
    let d = st.on_notification(boundary(59, 0, 5));
    assert_eq!(d, Directive::Resume);
    st.on_resume(ResumeOutcome::Resumed);
    let d = st.on_notification(Notification::Exit { code: 0 });
    assert_eq!(d, Directive::Halt);
    assert_eq!(st.phase, Phase::Exited { end: SessionEnd::Exited { code: 0 } });
    assert_eq!(st.session.row_count(), 0);
}

#[test]
fn open_three_read_five_then_exit() {
    // open (id 2) three times, read (id 0) five times, then the
    // process-termination call: counts 3, 5 and 1.
    let mut st = TraceState::start(Arch::X86_64, false);
    st.on_notification(boundary(59, 0, 0));
    st.on_resume(ResumeOutcome::Resumed);
    let mut t = 10u64;
    for _ in 0..3 {
        pair(&mut st, 2, 3, t, t + 4);
        t += 10;
    }
    for _ in 0..5 {
        pair(&mut st, 0, 100, t, t + 2);
        t += 10;
    }
    // The termination call: entry observed, no exit stop ever arrives.
    let d = st.on_notification(boundary(231, 0, t));
    assert_eq!(d, Directive::Resume);
    st.on_resume(ResumeOutcome::Resumed);
    let d = st.on_notification(Notification::Exit { code: 0 });
    assert_eq!(d, Directive::Halt);

    let open_stats = st.session.lookup(2).expect("open was recorded");
    assert_eq!(open_stats.count, 3);
    assert_eq!(open_stats.total_elapsed_us, 12);
    assert_eq!(open_stats.error_count, 0);
    let read_stats = st.session.lookup(0).expect("read was recorded");
    assert_eq!(read_stats.count, 5);
    assert_eq!(read_stats.total_elapsed_us, 10);
    let term_stats = st.session.lookup(231).expect("termination call was recorded");
    assert_eq!(term_stats.count, 1);
    assert_eq!(term_stats.total_elapsed_us, 0);
    assert_eq!(term_stats.error_count, 0);
}

#[test]
fn termination_race_is_a_clean_end() {
    // The child vanishes between the termination call's entry and the next
    // resume request: the session ends cleanly, not with an error.
    let mut st = TraceState::start(Arch::X86_64, false);
    st.on_notification(boundary(59, 0, 0));
    st.on_resume(ResumeOutcome::Resumed);
    let d = st.on_notification(boundary(231, 0, 50));
    assert_eq!(d, Directive::Resume);
    st.on_resume(ResumeOutcome::ProcessGone);
    assert_eq!(st.phase, Phase::Exited { end: SessionEnd::Vanished });
    assert_eq!(st.session.lookup(231).expect("counted at entry").count, 1);
}

#[test]
fn vanishing_after_ordinary_call_is_fatal() {
    let mut st = TraceState::start(Arch::X86_64, false);
    st.on_notification(boundary(59, 0, 0));
    st.on_resume(ResumeOutcome::Resumed);
    st.on_notification(boundary(0, 0, 10));
    st.on_resume(ResumeOutcome::ProcessGone);
    assert_eq!(st.phase, Phase::Failed { error: TraceError::Resume });
}

#[test]
fn resume_failure_is_fatal() {
    let mut st = TraceState::start(Arch::X86_64, false);
    st.on_notification(boundary(59, 0, 0));
    st.on_resume(ResumeOutcome::Failed);
    assert_eq!(st.phase, Phase::Failed { error: TraceError::Resume });
}

#[test]
fn wait_failure_is_fatal() {
    let mut st = TraceState::start(Arch::X86_64, false);
    let d = st.on_notification(Notification::WaitFailed);
    assert_eq!(d, Directive::Halt);
    assert_eq!(st.phase, Phase::Failed { error: TraceError::Wait });
}

#[test]
fn unreadable_registers_are_fatal() {
    let mut st = TraceState::start(Arch::X86_64, false);
    st.on_notification(boundary(59, 0, 0));
    st.on_resume(ResumeOutcome::Resumed);
    let d = st.on_notification(Notification::BoundaryRegsUnavailable);
    assert_eq!(d, Directive::Halt);
    assert_eq!(st.phase, Phase::Failed { error: TraceError::RegisterRead });
}

#[test]
fn signal_death_ends_the_session() {
    let mut st = TraceState::start(Arch::X86_64, false);
    st.on_notification(boundary(59, 0, 0));
    st.on_resume(ResumeOutcome::Resumed);
    let d = st.on_notification(Notification::Killed { signal: 9 });
    assert_eq!(d, Directive::Halt);
    assert_eq!(st.phase, Phase::Exited { end: SessionEnd::Signaled { signal: 9 } });
}

#[test]
fn live_mode_emits_on_entry_only() {
    let mut st = TraceState::start(Arch::X86_64, true);
    st.on_notification(boundary(59, 0, 0));
    st.on_resume(ResumeOutcome::Resumed);
    let d = st.on_notification(boundary(0, 0, 10));
    assert_eq!(d, Directive::EmitAndResume { syscall_id: 0 });
    st.on_resume(ResumeOutcome::Resumed);
    let d = st.on_notification(boundary(0, 7, 12));
    assert_eq!(d, Directive::Resume);
}

#[test]
fn negative_return_counts_as_error() {
    let mut st = TraceState::start(Arch::X86_64, false);
    st.on_notification(boundary(59, 0, 0));
    st.on_resume(ResumeOutcome::Resumed);
    pair(&mut st, 2, -2, 10, 15);
    pair(&mut st, 2, 3, 20, 30);
    let stats = st.session.lookup(2).unwrap();
    assert_eq!(stats.count, 2);
    assert_eq!(stats.error_count, 1);
    assert_eq!(stats.total_elapsed_us, 15);
    assert!(stats.count >= stats.error_count);
}

#[test]
fn entry_without_exit_is_dropped() {
    // An ordinary call whose exit never arrives (the child dies first) is
    // not aggregated and does not break the session.
    let mut st = TraceState::start(Arch::X86_64, false);
    st.on_notification(boundary(59, 0, 0));
    st.on_resume(ResumeOutcome::Resumed);
    st.on_notification(boundary(1, 0, 10));
    st.on_resume(ResumeOutcome::Resumed);
    let d = st.on_notification(Notification::Exit { code: 3 });
    assert_eq!(d, Directive::Halt);
    assert_eq!(st.phase, Phase::Exited { end: SessionEnd::Exited { code: 3 } });
    assert!(st.session.lookup(1).is_none());
    assert_eq!(st.session.row_count(), 0);
}

#[test]
fn spawn_failure_yields_no_stats() {
    // A spawn failure aborts before tracing: the error exists, and a
    // session that never ran holds no rows and renders no table rows.
    let err = TraceError::Spawn;
    assert_eq!(err.describe(), "spawn error");
    let session = Session::new();
    assert_eq!(session.row_count(), 0);
    let lines = like_strace::report::render_summary(&session, Arch::X86_64, 1000);
    assert_eq!(lines.len(), 2);
}

#[test]
fn error_descriptions() {
    assert_eq!(TraceError::Wait.describe(), "wait error");
    assert_eq!(TraceError::RegisterRead.describe(), "register read error");
    assert_eq!(TraceError::Resume.describe(), "resume error");
}
