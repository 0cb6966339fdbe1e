use systrace::controller::{Phase, TraceAction, TraceEvent, Tracer};

// A process id no tracee ever has, so every register or memory read
// the controller attempts fails and shows as a placeholder.
const NO_PID: i32 = -1;

#[test]
fn initial_trap_enables_syscall_tagging() {
    let mut t = Tracer::new();
    assert_eq!(t.phase, Phase::AwaitingInitialStop);
    let out = t.step(NO_PID, TraceEvent::Stopped(5));
    assert_eq!(t.phase, Phase::EntryWait);
    assert_eq!(out.action, TraceAction::EnableSyscallTags);
    assert!(out.line.is_none());
}

#[test]
fn wrong_initial_stop_is_fatal() {
    let mut t = Tracer::new();
    let out = t.step(NO_PID, TraceEvent::Stopped(9));
    assert_eq!(t.phase, Phase::Terminated);
    assert_eq!(out.action, TraceAction::Finish);
    assert!(out.line.is_some());
}

#[test]
fn entry_and_exit_are_both_consumed() {
    let mut t = Tracer::new();
    t.step(NO_PID, TraceEvent::Stopped(5));
    let entry = t.step(NO_PID, TraceEvent::SyscallStop);
    assert_eq!(t.phase, Phase::ExitWait);
    assert!(entry.line.is_none());
    assert!(t.pending.is_some());
    assert_eq!(entry.action, TraceAction::Resume);
    let exit = t.step(NO_PID, TraceEvent::SyscallStop);
    assert_eq!(t.phase, Phase::EntryWait);
    assert!(t.pending.is_none());
    // Registers are unreadable for this pid, so both halves show as
    // placeholders, joined in the one emitted line.
    assert_eq!(exit.line.unwrap().as_str(), "> syscall ? = ?");
}

#[test]
fn alternation_is_kept_over_many_syscalls() {
    let mut t = Tracer::new();
    t.step(NO_PID, TraceEvent::Stopped(5));
    for _ in 0..17 {
        t.step(NO_PID, TraceEvent::SyscallStop);
        assert_eq!(t.phase, Phase::ExitWait);
        t.step(NO_PID, TraceEvent::SyscallStop);
        assert_eq!(t.phase, Phase::EntryWait);
    }
}

#[test]
fn tracee_exit_emits_termination_line() {
    let mut t = Tracer::new();
    t.step(NO_PID, TraceEvent::Stopped(5));
    let out = t.step(NO_PID, TraceEvent::Exited);
    assert_eq!(t.phase, Phase::Terminated);
    assert_eq!(out.action, TraceAction::Finish);
    assert_eq!(out.line.unwrap().as_str(), "Terminated...");
}

#[test]
fn tracee_exit_mid_syscall_emits_termination_line() {
    let mut t = Tracer::new();
    t.step(NO_PID, TraceEvent::Stopped(5));
    t.step(NO_PID, TraceEvent::SyscallStop);
    let out = t.step(NO_PID, TraceEvent::Exited);
    assert_eq!(t.phase, Phase::Terminated);
    assert_eq!(out.line.unwrap().as_str(), "Terminated...");
}

#[test]
fn signal_stop_is_reported_and_forwarded() {
    let mut t = Tracer::new();
    t.step(NO_PID, TraceEvent::Stopped(5));
    let out = t.step(NO_PID, TraceEvent::Stopped(17));
    assert_eq!(t.phase, Phase::EntryWait);
    assert_eq!(out.action, TraceAction::ResumeWithSignal(17));
    assert_eq!(out.line.unwrap().as_str(), "> stopped by signal 17");
}

#[test]
fn unexpected_status_is_reported_not_ignored() {
    let mut t = Tracer::new();
    t.step(NO_PID, TraceEvent::Stopped(5));
    let out = t.step(NO_PID, TraceEvent::Other);
    assert_eq!(t.phase, Phase::EntryWait);
    assert_eq!(out.action, TraceAction::Resume);
    assert_eq!(out.line.unwrap().as_str(), "> unexpected wait status");
}
