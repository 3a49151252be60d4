//! The parent's side: the state machine that answers what `waitpid` reports
//! of the child.

use crate::context::CatBoxOption;
use crate::error::{CatBoxError, ErrorModel};
use crate::signal::{signal_text, Signal};
use crate::syscall::{
    asks_for, consumed, permits, Registers, SyscallFilter, SyscallId, SyscallPerm,
};
use vstd::prelude::*;
use vstd::string::StringExecFns;

verus! {

/// What `waitpid` reports of the child.
#[derive(Clone, Copy, Debug, PartialEq, Eq, Structural)]
pub enum WaitStatus {
    /// The child ended by itself, with this exit status
    Exited { pid: i32, status: i32 },
    /// A signal ended the child
    Signaled { pid: i32, signal: Signal },
    /// The child is stopped, and this signal waits to be delivered
    Stopped { pid: i32, signal: Signal },
}

/// What a stop of the child means to the supervisor.
#[derive(Clone, Copy, Debug, PartialEq, Eq, Structural)]
pub enum StopClass {
    /// A clock ran out
    TimeLimit,
    /// The child did something that ends it
    Fault,
    /// The child is about to enter or leave a syscall
    Trap,
    /// Nothing that a supervised child should be stopped by
    Unexpected,
}

/// The class of a stop by its signal.
pub open spec fn stop_class(signal: Signal) -> StopClass {
    match signal {
        Signal::SIGALRM | Signal::SIGVTALRM | Signal::SIGXCPU => StopClass::TimeLimit,
        Signal::SIGTRAP => StopClass::Trap,
        Signal::SIGBUS
        | Signal::SIGFPE
        | Signal::SIGILL
        | Signal::SIGSEGV
        | Signal::SIGSYS
        | Signal::SIGXFSZ
        | Signal::SIGABRT => StopClass::Fault,
        _ => StopClass::Unexpected,
    }
}

/// Whether the signal of a stop is handed on to the child.
pub open spec fn is_forwarded(signal: Signal) -> bool {
    stop_class(signal) == StopClass::TimeLimit || stop_class(signal) == StopClass::Fault
}

/// What the supervisor does next.
#[allow(inconsistent_fields)]
#[derive(Clone, Copy, Debug, PartialEq, Eq, Structural)]
pub enum Action {
    /// Let the child run on and deliver the signal to it, then wait again
    Forward { pid: i32, signal: Signal },
    /// Read the registers of the child and hand them to
    /// [`Supervisor::on_registers`]
    Inspect { pid: i32 },
    /// The child is gone: stop waiting
    Finish { status: Option<i32>, signal: Option<Signal> },
    /// The child is stopped by a signal that the supervisor has no answer to
    Unexpected { pid: i32, signal: Signal },
}

/// How the child goes on after a syscall stop.
#[derive(Clone, Copy, Debug, PartialEq, Eq, Structural)]
pub enum Intervention {
    /// Let the child run to its next syscall stop, then wait again
    Resume { pid: i32 },
    /// Kill the child, then wait again
    Kill { pid: i32 },
}

/// What the supervisor does on a report, given the last signal it forwarded.
pub open spec fn reaction(carried: Option<Signal>, status: WaitStatus) -> Action {
    match status {
        WaitStatus::Exited { pid, status } => Action::Finish { status: Some(status), signal: carried },
        WaitStatus::Signaled { pid, signal } => Action::Finish { status: None, signal: Some(signal) },
        WaitStatus::Stopped { pid, signal } => match stop_class(signal) {
            StopClass::TimeLimit | StopClass::Fault => Action::Forward { pid, signal },
            StopClass::Trap => Action::Inspect { pid },
            StopClass::Unexpected => Action::Unexpected { pid, signal },
        },
    }
}

/// The last forwarded signal after a report.
pub open spec fn remembered(carried: Option<Signal>, status: WaitStatus) -> Option<Signal> {
    match status {
        WaitStatus::Stopped { pid, signal } if is_forwarded(signal) => Some(signal),
        _ => carried,
    }
}

/// The view of a filter that may be absent.
pub open spec fn filter_view(filter: Option<SyscallFilter>) -> Option<Map<SyscallId, SyscallPerm>> {
    match filter {
        Some(f) => Some(f@),
        None => None,
    }
}

/// Whether the child may go on after a syscall stop. Without registers or
/// without a filter it always may.
pub open spec fn may_resume(
    filter: Option<Map<SyscallId, SyscallPerm>>,
    regs: Option<Registers>,
    predicate: bool,
) -> bool {
    match (filter, regs) {
        (Some(map), Some(regs)) => permits(map, regs.orig_rax, predicate),
        _ => true,
    }
}

/// The filter after a syscall stop.
pub open spec fn filter_after(
    filter: Option<Map<SyscallId, SyscallPerm>>,
    regs: Option<Registers>,
) -> Option<Map<SyscallId, SyscallPerm>> {
    match (filter, regs) {
        (Some(map), Some(regs)) => Some(consumed(map, regs.orig_rax)),
        _ => filter,
    }
}

/// The state of the supervision loop.
#[derive(Debug)]
pub struct Supervisor {
    /// The filter with the quotas that are left
    pub filter: Option<SyscallFilter>,
    /// The signal of the last stop that was forwarded to the child
    pub last_signal: Option<Signal>,
}

impl Supervisor {
    /// The state before the first wait: a copy of the option's filter, and
    /// no signal seen.
    pub fn new(option: &CatBoxOption) -> (supervisor: Self)
        ensures
            filter_view(supervisor.filter) == filter_view(option.ptrace),
            supervisor.last_signal is None,
    {
        let filter = match option.ptrace() {
            Some(filter) => Some(filter.clone()),
            None => None,
        };
        Supervisor { filter, last_signal: None }
    }

    /// Answers a report of `waitpid`.
    pub fn on_wait(&mut self, status: WaitStatus) -> (action: Action)
        ensures
            action == reaction(old(self).last_signal, status),
            final(self).last_signal == remembered(old(self).last_signal, status),
            final(self).filter == old(self).filter,
    {
        match status {
            WaitStatus::Exited { pid, status } => Action::Finish {
                status: Some(status),
                signal: self.last_signal,
            },
            WaitStatus::Signaled { pid, signal } => Action::Finish {
                status: None,
                signal: Some(signal),
            },
            WaitStatus::Stopped { pid, signal } => {
                match signal {
                    Signal::SIGALRM | Signal::SIGVTALRM | Signal::SIGXCPU => {
                        self.last_signal = Some(signal);
                        Action::Forward { pid, signal }
                    },
                    Signal::SIGTRAP => Action::Inspect { pid },
                    Signal::SIGBUS
                    | Signal::SIGFPE
                    | Signal::SIGILL
                    | Signal::SIGSEGV
                    | Signal::SIGSYS
                    | Signal::SIGXFSZ
                    | Signal::SIGABRT => {
                        self.last_signal = Some(signal);
                        Action::Forward { pid, signal }
                    },
                    _ => Action::Unexpected { pid, signal },
                }
            },
        }
    }

    /// Whether the decision on the syscall that the registers show is left to
    /// the caller's predicate.
    pub fn asks_predicate(&self, regs: &Registers) -> (asks: bool)
        ensures
            asks == (self.filter matches Some(filter) && asks_for(filter@, regs.orig_rax)),
    {
        match &self.filter {
            Some(filter) => filter.asks_predicate(regs),
            None => false,
        }
    }

    /// Decides on a syscall stop of the child `pid`. `regs` holds the
    /// registers if they could be read; `predicate` is what the caller's
    /// predicate says of the syscall, which matters for a `FilterFn` entry
    /// only.
    pub fn on_registers(&mut self, pid: i32, regs: Option<Registers>, predicate: bool) -> (next:
        Intervention)
        ensures
            next == (if may_resume(filter_view(old(self).filter), regs, predicate) {
                Intervention::Resume { pid }
            } else {
                Intervention::Kill { pid }
            }),
            filter_view(final(self).filter) == filter_after(filter_view(old(self).filter), regs),
            final(self).last_signal == old(self).last_signal,
    {
        match regs {
            Some(user_regs) => {
                let allowed = match &mut self.filter {
                    Some(filter) => filter.filter(&user_regs, predicate),
                    None => true,
                };
                if allowed {
                    Intervention::Resume { pid }
                } else {
                    Intervention::Kill { pid }
                }
            },
            None => Intervention::Resume { pid },
        }
    }
}

/// The error for a child that is stopped by a signal that the supervisor has
/// no answer to.
pub fn unexpected_stop(signal: Signal) -> (error: CatBoxError)
    ensures
        error@ == ErrorModel::Unknown(
            "Child process is stopped by an unhandled signal "@ + signal_text(signal.number()),
        ),
{
    let name = signal.name();
    CatBoxError::Unknown(
        String::from_str("Child process is stopped by an unhandled signal ").concat(name.as_str()),
    )
}

/// How a run ended: the exit status and the signal of its result.
#[derive(Clone, Copy, Debug, PartialEq, Eq, Structural)]
pub struct Ending {
    pub status: Option<i32>,
    pub signal: Option<Signal>,
}

/// How a run ends when `waitpid` reports `events` in this order, starting
/// with `carried` as the last forwarded signal. There is no ending while the
/// child is not gone, nor after an unexpected stop.
pub open spec fn outcome(carried: Option<Signal>, events: Seq<WaitStatus>) -> Option<Ending>
    decreases events.len(),
{
    if events.len() == 0 {
        None
    } else {
        match reaction(carried, events[0]) {
            Action::Finish { status, signal } => Some(Ending { status, signal }),
            Action::Unexpected { .. } => None,
            _ => outcome(remembered(carried, events[0]), events.skip(1)),
        }
    }
}

/// Whether a report is a stop whose signal is forwarded.
pub open spec fn is_forwarded_stop(status: WaitStatus) -> bool {
    status matches WaitStatus::Stopped { signal, .. } && is_forwarded(signal)
}

/// Every run that ends has an exit status or a signal.
pub proof fn lemma_outcome_is_set(carried: Option<Signal>, events: Seq<WaitStatus>)
    requires
        outcome(carried, events) is Some,
    ensures
        outcome(carried, events)->0.status is Some || outcome(carried, events)->0.signal is Some,
    decreases events.len(),
{
    match reaction(carried, events[0]) {
        Action::Finish { .. } => {},
        Action::Unexpected { .. } => {},
        _ => {
            lemma_outcome_is_set(remembered(carried, events[0]), events.skip(1));
        },
    }
}

/// A run in which no signal was forwarded to the child ends with exactly one
/// of exit status and signal.
pub proof fn lemma_outcome_is_one(events: Seq<WaitStatus>)
    requires
        outcome(None, events) is Some,
        forall|i: int| 0 <= i < events.len() ==> !is_forwarded_stop(#[trigger] events[i]),
    ensures
        outcome(None, events)->0.status is Some != outcome(None, events)->0.signal is Some,
    decreases events.len(),
{
    match reaction(None, events[0]) {
        Action::Finish { .. } => {},
        Action::Unexpected { .. } => {},
        _ => {
            assert(!is_forwarded_stop(events[0]));
            assert(remembered(None, events[0]) is None);
            assert forall|i: int| 0 <= i < events.skip(1).len() implies !is_forwarded_stop(
                #[trigger] events.skip(1)[i],
            ) by {
                assert(events.skip(1)[i] == events[i + 1]);
            }
            lemma_outcome_is_one(events.skip(1));
        },
    }
}

/// A run that ends by a signal has no exit status, whatever was forwarded
/// before.
pub proof fn lemma_signaled_has_no_status(
    carried: Option<Signal>,
    events: Seq<WaitStatus>,
    pid: i32,
    signal: Signal,
)
    requires
        events.len() > 0,
        events.last() == (WaitStatus::Signaled { pid, signal }),
        outcome(carried, events.drop_last()) is None,
        outcome(carried, events) is Some,
    ensures
        outcome(carried, events) == Some(Ending { status: None, signal: Some(signal) }),
    decreases events.len(),
{
    if events.len() == 1 {
    } else {
        assert(events.drop_last()[0] == events[0]);
        match reaction(carried, events[0]) {
            Action::Finish { .. } => {},
            Action::Unexpected { .. } => {},
            _ => {
                assert(events.drop_last().skip(1) == events.skip(1).drop_last());
                lemma_signaled_has_no_status(
                    remembered(carried, events[0]),
                    events.skip(1),
                    pid,
                    signal,
                );
            },
        }
    }
}

/// The signal of a forwarded stop is kept: when the child exits right after
/// it, the result holds the exit status and that signal.
pub proof fn lemma_forwarded_signal_is_kept(
    carried: Option<Signal>,
    pid: i32,
    signal: Signal,
    status: i32,
)
    requires
        is_forwarded(signal),
    ensures
        outcome(
            carried,
            seq![WaitStatus::Stopped { pid, signal }, WaitStatus::Exited { pid, status }],
        ) == Some(Ending { status: Some(status), signal: Some(signal) }),
{
    let events = seq![WaitStatus::Stopped { pid, signal }, WaitStatus::Exited { pid, status }];
    assert(events.skip(1)[0] == WaitStatus::Exited { pid, status });
    assert(remembered(carried, events[0]) == Some(signal));
    assert(outcome(Some(signal), events.skip(1)) == Some(
        Ending { status: Some(status), signal: Some(signal) },
    ));
}

} // verus!
