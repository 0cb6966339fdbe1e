//! The trace controller's state machine: the tracee alternates between
//! running and stopped at a syscall boundary, and the controller decides
//! at every stop what to do next. Every syscall's entry stop and exit
//! stop are both consumed, whether or not the number has a decoder, so
//! the entry/exit alternation can never desynchronize.

use vstd::prelude::*;
use vstd::string::StringExecFns;
use crate::decode::{entry_prefix, entry_text, exit_value};
use crate::fmt::int_seq;
use crate::remote::{get_regs, RegisterSnapshot};

verus! {

/// The signal number of the trap that the kernel delivers at the
/// guaranteed first stop of a freshly launched tracee.
pub const SIGTRAP: i32 = 5;

/// Where the controller stands in the trace.
#[derive(PartialEq, Eq, Structural, Clone, Copy, Debug)]
pub enum Phase {
    /// Launched, waiting for the guaranteed first stop.
    AwaitingInitialStop,
    /// Running until the next syscall entry boundary.
    EntryWait,
    /// Entry consumed, running until the matching exit boundary.
    ExitWait,
    /// The tracee is gone; terminal.
    Terminated,
}

/// What a blocking wait on the tracee reported.
#[derive(PartialEq, Eq, Structural, Clone, Copy, Debug)]
pub enum TraceEvent {
    /// A syscall boundary, tagged distinguishably as such.
    SyscallStop,
    /// A stop for a delivered signal, with its number.
    Stopped(i32),
    /// The tracee exited or was killed.
    Exited,
    /// Anything else the wait can report.
    Other,
}

/// What the caller must do to the tracee after a step.
#[derive(PartialEq, Eq, Structural, Clone, Copy, Debug)]
pub enum TraceAction {
    /// Enable the option that tags syscall stops, then run to the next
    /// syscall boundary.
    EnableSyscallTags,
    /// Run to the next syscall boundary.
    Resume,
    /// Run to the next syscall boundary, delivering the given signal.
    ResumeWithSignal(i32),
    /// The trace is over; stop driving.
    Finish,
}

/// One step's outcome: a trace line to emit, if any, and the action to
/// take on the tracee.
pub struct StepOutput {
    pub line: Option<String>,
    pub action: TraceAction,
}

/// The phase the controller moves to on an event: the first stop must
/// be the expected trap, a syscall boundary flips between entry and
/// exit, an exit of the tracee ends the trace, and any other stop
/// leaves the phase alone.
pub open spec fn next_phase(p: Phase, e: TraceEvent) -> Phase {
    match p {
        Phase::AwaitingInitialStop => match e {
            TraceEvent::Stopped(sig) => if sig == SIGTRAP {
                Phase::EntryWait
            } else {
                Phase::Terminated
            },
            _ => Phase::Terminated,
        },
        Phase::EntryWait => match e {
            TraceEvent::SyscallStop => Phase::ExitWait,
            TraceEvent::Exited => Phase::Terminated,
            _ => Phase::EntryWait,
        },
        Phase::ExitWait => match e {
            TraceEvent::SyscallStop => Phase::EntryWait,
            TraceEvent::Exited => Phase::Terminated,
            _ => Phase::ExitWait,
        },
        Phase::Terminated => Phase::Terminated,
    }
}

/// The action the controller takes on an event in a phase.
pub open spec fn next_action(p: Phase, e: TraceEvent) -> TraceAction {
    match p {
        Phase::AwaitingInitialStop => match e {
            TraceEvent::Stopped(sig) => if sig == SIGTRAP {
                TraceAction::EnableSyscallTags
            } else {
                TraceAction::Finish
            },
            _ => TraceAction::Finish,
        },
        Phase::EntryWait | Phase::ExitWait => match e {
            TraceEvent::SyscallStop => TraceAction::Resume,
            TraceEvent::Exited => TraceAction::Finish,
            TraceEvent::Stopped(sig) => TraceAction::ResumeWithSignal(sig),
            TraceEvent::Other => TraceAction::Resume,
        },
        Phase::Terminated => TraceAction::Finish,
    }
}

/// How many entry stops an event consumes in a phase: one at a syscall
/// boundary while waiting for an entry, none otherwise.
pub open spec fn entry_delta(p: Phase, e: TraceEvent) -> nat {
    if p is EntryWait && e is SyscallStop {
        1
    } else {
        0
    }
}

/// How many exit stops an event consumes in a phase: one at a syscall
/// boundary while waiting for an exit, none otherwise.
pub open spec fn exit_delta(p: Phase, e: TraceEvent) -> nat {
    if p is ExitWait && e is SyscallStop {
        1
    } else {
        0
    }
}

/// The controller for one traced process. It owns the process for the
/// trace's lifetime; the caller performs the blocking waits and hands
/// every reported event to `step`.
pub struct Tracer {
    /// Where the controller stands.
    pub phase: Phase,
    /// The formatted entry text of the syscall whose exit is awaited.
    pub pending: Option<String>,
    /// How many entry stops have been consumed.
    pub entries: Ghost<nat>,
    /// How many exit stops have been consumed.
    pub exits: Ghost<nat>,
}

impl Tracer {
    /// The controller's invariant: entry and exit stops alternate. The
    /// entry count runs exactly one ahead while an exit is awaited,
    /// which is also exactly when an entry text is pending; the counts
    /// are equal whenever the trace can still continue with a new
    /// syscall. After termination they may differ by one, when the
    /// tracee died inside its final syscall and the exit stop never
    /// came.
    pub open spec fn wf(self) -> bool {
        &&& self.exits@ <= self.entries@ <= self.exits@ + 1
        &&& (self.phase is ExitWait ==> self.entries@ == self.exits@ + 1)
        &&& ((self.phase is EntryWait || self.phase is AwaitingInitialStop) ==> self.entries@
            == self.exits@)
        &&& (self.phase is ExitWait <==> self.pending is Some)
    }

    /// A fresh controller for a just-launched tracee.
    pub fn new() -> (t: Tracer)
        ensures
            t.wf(),
            t.phase is AwaitingInitialStop,
            t.entries@ == 0,
            t.exits@ == 0,
    {
        Tracer {
            phase: Phase::AwaitingInitialStop,
            pending: Option::None,
            entries: Ghost(0),
            exits: Ghost(0),
        }
    }

    /// Consumes one wait event: moves the state machine, decodes the
    /// stopped tracee's registers and memory where the event calls for
    /// it, and says what to emit and how to resume. Entry and exit
    /// stops are always consumed in strict alternation, also for
    /// syscall numbers without a decoder of their own.
    pub fn step(&mut self, pid: i32, event: TraceEvent) -> (out: StepOutput)
        requires
            old(self).wf(),
        ensures
            final(self).wf(),
            final(self).phase == next_phase(old(self).phase, event),
            final(self).entries@ == old(self).entries@ + entry_delta(old(self).phase, event),
            final(self).exits@ == old(self).exits@ + exit_delta(old(self).phase, event),
            out.action == next_action(old(self).phase, event),
            old(self).phase is EntryWait && event is SyscallStop ==> out.line is None
                && final(self).pending is Some && ((exists|rg: RegisterSnapshot|
                entry_text(rg, final(self).pending->0@)) || final(self).pending->0@
                == "> syscall ?"@),
            old(self).phase is ExitWait && event is SyscallStop ==> out.line is Some
                && (exists|t: Seq<char>|
                out.line->0@ == old(self).pending->0@ + " = "@ + t && ((exists|rv: i64|
                    t == int_seq(rv as int)) || t == "?"@)),
            (old(self).phase is EntryWait || old(self).phase is ExitWait) && event is Exited
                ==> out.line is Some && out.line->0@ == "Terminated..."@,
            old(self).phase is AwaitingInitialStop && !(next_phase(old(self).phase, event)
                is EntryWait) ==> out.line is Some && out.line->0@
                == "trace setup failed: unexpected initial stop"@,
            (old(self).phase is EntryWait || old(self).phase is ExitWait) && !(event
                is SyscallStop) && !(event is Exited) ==> out.line is Some && final(self).pending
                == old(self).pending,
            (old(self).phase is EntryWait || old(self).phase is ExitWait) ==> (match event {
                TraceEvent::Stopped(sig) => out.line is Some && out.line->0@
                    == "> stopped by signal "@ + int_seq(sig as int),
                TraceEvent::Other => out.line is Some && out.line->0@
                    == "> unexpected wait status"@,
                _ => true,
            }),
    {
        match self.phase {
            Phase::AwaitingInitialStop => {
                match event {
                    TraceEvent::Stopped(sig) => {
                        if sig == SIGTRAP {
                            self.phase = Phase::EntryWait;
                            StepOutput { line: Option::None, action: TraceAction::EnableSyscallTags }
                        } else {
                            self.phase = Phase::Terminated;
                            StepOutput {
                                line: Option::Some(
                                    String::from_str("trace setup failed: unexpected initial stop"),
                                ),
                                action: TraceAction::Finish,
                            }
                        }
                    },
                    _ => {
                        self.phase = Phase::Terminated;
                        StepOutput {
                            line: Option::Some(
                                String::from_str("trace setup failed: unexpected initial stop"),
                            ),
                            action: TraceAction::Finish,
                        }
                    },
                }
            },
            Phase::EntryWait => {
                match event {
                    TraceEvent::SyscallStop => {
                        let prefix: String = match get_regs(pid) {
                            Option::Some(regs) => entry_prefix(pid, &regs),
                            Option::None => String::from_str("> syscall ?"),
                        };
                        self.pending = Option::Some(prefix);
                        self.phase = Phase::ExitWait;
                        proof {
                            self.entries@ = self.entries@ + 1nat;
                        }
                        StepOutput { line: Option::None, action: TraceAction::Resume }
                    },
                    TraceEvent::Exited => {
                        self.phase = Phase::Terminated;
                        StepOutput {
                            line: Option::Some(String::from_str("Terminated...")),
                            action: TraceAction::Finish,
                        }
                    },
                    TraceEvent::Stopped(sig) => {
                        StepOutput {
                            line: Option::Some(signal_report(sig)),
                            action: TraceAction::ResumeWithSignal(sig),
                        }
                    },
                    TraceEvent::Other => {
                        StepOutput {
                            line: Option::Some(String::from_str("> unexpected wait status")),
                            action: TraceAction::Resume,
                        }
                    },
                }
            },
            Phase::ExitWait => {
                match event {
                    TraceEvent::SyscallStop => {
                        let suffix = exit_value(pid);
                        let mut line = self.pending.take().unwrap();
                        line.append(" = ");
                        line.append(suffix.as_str());
                        self.phase = Phase::EntryWait;
                        proof {
                            self.exits@ = self.exits@ + 1nat;
                        }
                        StepOutput { line: Option::Some(line), action: TraceAction::Resume }
                    },
                    TraceEvent::Exited => {
                        self.phase = Phase::Terminated;
                        self.pending = Option::None;
                        StepOutput {
                            line: Option::Some(String::from_str("Terminated...")),
                            action: TraceAction::Finish,
                        }
                    },
                    TraceEvent::Stopped(sig) => {
                        StepOutput {
                            line: Option::Some(signal_report(sig)),
                            action: TraceAction::ResumeWithSignal(sig),
                        }
                    },
                    TraceEvent::Other => {
                        StepOutput {
                            line: Option::Some(String::from_str("> unexpected wait status")),
                            action: TraceAction::Resume,
                        }
                    },
                }
            },
            Phase::Terminated => {
                StepOutput { line: Option::None, action: TraceAction::Finish }
            },
        }
    }
}

/// The report line for a stop caused by a delivered signal.
fn signal_report(sig: i32) -> (s: String)
    ensures
        s@ == "> stopped by signal "@ + int_seq(sig as int),
{
    let mut s = String::from_str("> stopped by signal ");
    s.append(crate::fmt::dec_i64(sig as i64).as_str());
    s
}

/// The phase reached after a whole sequence of wait events, from a
/// fresh controller.
pub open spec fn phase_after(events: Seq<TraceEvent>) -> Phase
    decreases events.len(),
{
    if events.len() == 0 {
        Phase::AwaitingInitialStop
    } else {
        next_phase(phase_after(events.drop_last()), events.last())
    }
}

/// The entry stops consumed over a whole sequence of wait events.
pub open spec fn entries_after(events: Seq<TraceEvent>) -> nat
    decreases events.len(),
{
    if events.len() == 0 {
        0
    } else {
        entries_after(events.drop_last()) + entry_delta(phase_after(events.drop_last()), events.last())
    }
}

/// The exit stops consumed over a whole sequence of wait events.
pub open spec fn exits_after(events: Seq<TraceEvent>) -> nat
    decreases events.len(),
{
    if events.len() == 0 {
        0
    } else {
        exits_after(events.drop_last()) + exit_delta(phase_after(events.drop_last()), events.last())
    }
}

/// Entry/exit alternation: over any sequence of wait events, including
/// syscalls without a decoder, the entry stops consumed never run more
/// than one ahead of the exit stops; they run exactly one ahead while
/// an exit is awaited, and the counts are equal at every point where
/// the trace can still continue with a new syscall.
pub proof fn lemma_entry_exit_alternation(events: Seq<TraceEvent>)
    ensures
        exits_after(events) <= entries_after(events) <= exits_after(events) + 1,
        phase_after(events) is ExitWait ==> entries_after(events) == exits_after(events) + 1,
        (phase_after(events) is EntryWait || phase_after(events) is AwaitingInitialStop)
            ==> entries_after(events) == exits_after(events),
    decreases events.len(),
{
    if events.len() > 0 {
        let prefix = events.drop_last();
        let p = phase_after(prefix);
        let e = events.last();
        lemma_entry_exit_alternation(prefix);
        assert(phase_after(events) == next_phase(p, e));
        assert(entries_after(events) == entries_after(prefix) + entry_delta(p, e));
        assert(exits_after(events) == exits_after(prefix) + exit_delta(p, e));
    }
}

} // verus!
