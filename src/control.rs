//! The process controller: signal delivery, priority changes and
//! terminate-by-name, with validation before any system call.

use vstd::prelude::*;
use nix::errno::Errno;

verus! {

#[verifier::external_type_specification]
#[verifier::external_body]
pub struct ExErrno(Errno);

/// The control signals the operator can send.
#[derive(Clone, Copy, Debug, PartialEq, Eq, Structural)]
pub enum ControlSignal {
    Kill,
    Terminate,
    Stop,
    Continue,
}

/// Why a control operation did not take effect.
#[derive(Clone, Copy, Debug, PartialEq, Eq)]
pub enum ControlError {
    /// The requested niceness lies outside -20..=19.
    InvalidPriority(i32),
    /// The system refused the operation on this pid, with its reason when it gave one.
    SignalFailed(i32, Option<Errno>),
    /// No process can have this pid.
    NoSuchProcess(i32),
    /// The cursor is on no process of the current list.
    NothingSelected,
    /// The process table could not be listed.
    ListFailed,
}

pub const MIN_NICE: i32 = -20;
pub const MAX_NICE: i32 = 19;

/// Relies on nix::sys::signal::kill (with nix::unistd::Pid::from_raw) to send
/// `signal` to the process `pid`; whether it is delivered is up to the system.
#[verifier::external_body]
fn deliver(pid: i32, signal: ControlSignal) -> (r: Result<(), Errno>)
    requires
        pid > 0,
{
    let sig = match signal {
        ControlSignal::Kill => nix::sys::signal::Signal::SIGKILL,
        ControlSignal::Terminate => nix::sys::signal::Signal::SIGTERM,
        ControlSignal::Stop => nix::sys::signal::Signal::SIGSTOP,
        ControlSignal::Continue => nix::sys::signal::Signal::SIGCONT,
    };
    nix::sys::signal::kill(nix::unistd::Pid::from_raw(pid), sig)
}

/// Relies on scheduler::set_priority with `Which::Process` to set the niceness
/// of the process `pid`; whether the system allows it is up to the system.
#[verifier::external_body]
fn renice(pid: i32, priority: i32) -> (r: Result<(), ()>)
    requires
        pid > 0,
        MIN_NICE <= priority <= MAX_NICE,
{
    scheduler::set_priority(scheduler::Which::Process, pid, priority)
}

/// Relies on procfs::process::all_processes and procfs::process::Process::stat:
/// the pid and command name of each entry of the process table, read as the
/// entry is listed so that one process directory is open at a time; `None`
/// for an entry that could not be read, and no list if the table could not be
/// opened.
#[verifier::external_body]
fn process_names() -> (r: Option<Vec<Option<(i32, String)>>>)
{
    procfs::process::all_processes().ok().map(
        |iter| iter.map(|entry| entry.ok().and_then(|p| p.stat().ok().map(|s| (s.pid, s.comm)))).collect(),
    )
}

/// What a signal sent to `pid` may come to: a pid that no process can have is
/// refused before any system call; otherwise the signal went out, or the
/// system refused it with a reason.
pub open spec fn signal_outcome(pid: i32, r: Result<(), ControlError>) -> bool {
    if pid <= 0 {
        r == Err::<(), ControlError>(ControlError::NoSuchProcess(pid))
    } else {
        r is Ok || (r matches Err(ControlError::SignalFailed(p, reason)) && p == pid && reason is Some)
    }
}

/// Sends `signal` to `pid`.
pub fn send_signal(pid: i32, signal: ControlSignal) -> (r: Result<(), ControlError>)
    ensures
        signal_outcome(pid, r),
{
    if pid <= 0 {
        return Err(ControlError::NoSuchProcess(pid));
    }
    match deliver(pid, signal) {
        Ok(()) => Ok(()),
        Err(e) => Err(ControlError::SignalFailed(pid, Some(e))),
    }
}

/// Sends the kill signal to `pid`.
pub fn kill_process(pid: i32) -> (r: Result<(), ControlError>)
    ensures
        signal_outcome(pid, r),
{
    send_signal(pid, ControlSignal::Kill)
}

/// Sends the termination signal to `pid`.
pub fn terminate_process(pid: i32) -> (r: Result<(), ControlError>)
    ensures
        signal_outcome(pid, r),
{
    send_signal(pid, ControlSignal::Terminate)
}

/// Sends the stop signal to `pid`.
pub fn suspend_process(pid: i32) -> (r: Result<(), ControlError>)
    ensures
        signal_outcome(pid, r),
{
    send_signal(pid, ControlSignal::Stop)
}

/// Sends the continue signal to `pid`.
pub fn resume_process(pid: i32) -> (r: Result<(), ControlError>)
    ensures
        signal_outcome(pid, r),
{
    send_signal(pid, ControlSignal::Continue)
}

pub open spec fn nice_in_range(priority: i32) -> bool {
    MIN_NICE <= priority <= MAX_NICE
}

/// Accepts a niceness of -20..=19 and refuses any other.
pub fn validate_priority(priority: i32) -> (r: Result<i32, ControlError>)
    ensures
        nice_in_range(priority) <==> r is Ok,
        r matches Ok(v) ==> v == priority,
        r matches Err(e) ==> e == ControlError::InvalidPriority(priority),
{
    if priority < MIN_NICE || priority > MAX_NICE {
        Err(ControlError::InvalidPriority(priority))
    } else {
        Ok(priority)
    }
}

/// What a priority change may come to: an out-of-range value is refused before
/// anything else, a pid that no process can have next; otherwise the system
/// applied it or refused it.
pub open spec fn priority_outcome(pid: i32, priority: i32, r: Result<(), ControlError>) -> bool {
    if !nice_in_range(priority) {
        r == Err::<(), ControlError>(ControlError::InvalidPriority(priority))
    } else if pid <= 0 {
        r == Err::<(), ControlError>(ControlError::NoSuchProcess(pid))
    } else {
        r is Ok || r == Err::<(), ControlError>(ControlError::SignalFailed(pid, None))
    }
}

/// Sets the niceness of `pid` to `priority`, which must lie in -20..=19.
pub fn change_priority(pid: i32, priority: i32) -> (r: Result<(), ControlError>)
    ensures
        priority_outcome(pid, priority, r),
{
    let value = match validate_priority(priority) {
        Ok(v) => v,
        Err(e) => return Err(e),
    };
    if pid <= 0 {
        return Err(ControlError::NoSuchProcess(pid));
    }
    match renice(pid, value) {
        Ok(()) => Ok(()),
        Err(()) => Err(ControlError::SignalFailed(pid, None)),
    }
}

/// The pids of the readable entries of `table` whose command name is `name`, in order.
pub open spec fn named_pids(table: Seq<Option<(i32, String)>>, name: Seq<char>) -> Seq<i32>
    decreases table.len(),
{
    if table.len() == 0 {
        Seq::empty()
    } else {
        let rest = named_pids(table.drop_last(), name);
        let last = table.last();
        if last is Some && last->Some_0.1@ == name {
            rest.push(last->Some_0.0)
        } else {
            rest
        }
    }
}

/// The errors among `outcomes`, in order.
pub open spec fn failures(outcomes: Seq<Result<(), ControlError>>) -> Seq<ControlError>
    decreases outcomes.len(),
{
    if outcomes.len() == 0 {
        Seq::empty()
    } else {
        let rest = failures(outcomes.drop_last());
        match outcomes.last() {
            Ok(_) => rest,
            Err(e) => rest.push(e),
        }
    }
}

/// Proves that there are no failures exactly when every outcome succeeded.
pub proof fn lemma_no_failures(outcomes: Seq<Result<(), ControlError>>)
    ensures
        failures(outcomes).len() == 0 <==> forall|i: int| 0 <= i < outcomes.len() ==> (#[trigger] outcomes[i]) is Ok,
    decreases outcomes.len(),
{
    if outcomes.len() > 0 {
        lemma_no_failures(outcomes.drop_last());
        assert(forall|i: int| 0 <= i < outcomes.len() - 1 ==> outcomes.drop_last()[i] == outcomes[i]);
        if failures(outcomes).len() == 0 {
            assert forall|i: int| 0 <= i < outcomes.len() implies (#[trigger] outcomes[i]) is Ok by {
                if i < outcomes.len() - 1 {
                    assert(outcomes.drop_last()[i] == outcomes[i]);
                }
            }
        }
    }
}

/// An error that a signal to one pid can come to.
pub open spec fn is_signal_error(e: ControlError) -> bool {
    e is SignalFailed || e is NoSuchProcess
}

/// Proves that the failures among outcomes of signals are signal errors.
pub proof fn lemma_failures_are_signal_errors(outcomes: Seq<Result<(), ControlError>>, pids: Seq<i32>)
    requires
        outcomes.len() == pids.len(),
        forall|i: int| 0 <= i < pids.len() ==> signal_outcome(pids[i], #[trigger] outcomes[i]),
    ensures
        forall|k: int| 0 <= k < failures(outcomes).len() ==> is_signal_error(#[trigger] failures(outcomes)[k]),
    decreases outcomes.len(),
{
    if outcomes.len() > 0 {
        let shorter = outcomes.drop_last();
        let fewer = pids.drop_last();
        assert forall|i: int| 0 <= i < fewer.len() implies signal_outcome(fewer[i], #[trigger] shorter[i]) by {
            assert(signal_outcome(pids[i], outcomes[i]));
        }
        lemma_failures_are_signal_errors(shorter, fewer);
        assert(signal_outcome(pids[pids.len() - 1], outcomes[outcomes.len() - 1]));
        let rest = failures(shorter);
        assert forall|k: int| 0 <= k < failures(outcomes).len() implies is_signal_error(
            #[trigger] failures(outcomes)[k],
        ) by {
            if k < rest.len() {
                assert(is_signal_error(rest[k]));
            }
        }
    }
}

/// The pids of the entries of `table` whose command name is exactly `name`,
/// in table order; unreadable entries are skipped.
pub fn matching_pids(table: &Vec<Option<(i32, String)>>, name: &str) -> (r: Vec<i32>)
    ensures
        r@ == named_pids(table@, name@),
{
    let wanted = name.to_string();
    let mut out: Vec<i32> = Vec::new();
    let mut i: usize = 0;
    while i < table.len()
        invariant
            i <= table.len(),
            wanted@ == name@,
            out@ == named_pids(table@.take(i as int), name@),
        decreases table.len() - i,
    {
        assert(table@.take(i + 1).drop_last() =~= table@.take(i as int));
        match &table[i] {
            Some(entry) => {
                if entry.1 == wanted {
                    out.push(entry.0);
                }
            },
            None => {},
        }
        i += 1;
    }
    assert(table@.take(table.len() as int) =~= table@);
    out
}

/// Sends the termination signal to every pid of `pids`, going on past failures.
pub fn terminate_each(pids: &Vec<i32>) -> (r: Vec<Result<(), ControlError>>)
    ensures
        r.len() == pids.len(),
        forall|i: int| 0 <= i < pids.len() ==> signal_outcome(pids[i], #[trigger] r[i]),
{
    let mut out: Vec<Result<(), ControlError>> = Vec::new();
    let mut i: usize = 0;
    while i < pids.len()
        invariant
            i <= pids.len(),
            out.len() == i,
            forall|j: int| 0 <= j < i ==> signal_outcome(pids[j], #[trigger] out[j]),
        decreases pids.len() - i,
    {
        let outcome = terminate_process(pids[i]);
        out.push(outcome);
        i += 1;
    }
    out
}

/// Success when every outcome succeeded, otherwise all the errors, in order.
pub fn join_failures(outcomes: &Vec<Result<(), ControlError>>) -> (r: Result<(), Vec<ControlError>>)
    ensures
        r is Ok <==> forall|i: int| 0 <= i < outcomes.len() ==> (#[trigger] outcomes[i]) is Ok,
        r matches Err(errors) ==> errors@ == failures(outcomes@) && errors.len() > 0,
{
    let mut errors: Vec<ControlError> = Vec::new();
    let mut i: usize = 0;
    while i < outcomes.len()
        invariant
            i <= outcomes.len(),
            errors@ == failures(outcomes@.take(i as int)),
        decreases outcomes.len() - i,
    {
        assert(outcomes@.take(i + 1).drop_last() =~= outcomes@.take(i as int));
        match &outcomes[i] {
            Ok(()) => {},
            Err(e) => errors.push(*e),
        }
        i += 1;
    }
    assert(outcomes@.take(outcomes.len() as int) =~= outcomes@);
    proof {
        lemma_no_failures(outcomes@);
    }
    if errors.len() == 0 {
        Ok(())
    } else {
        Err(errors)
    }
}

/// Sends the termination signal to every process whose command name is
/// exactly `process_name`, read from a fresh listing of the process table.
/// Succeeds only if every signal went out; otherwise reports every failure.
pub fn killall(process_name: &str) -> (r: Result<(), Vec<ControlError>>)
    ensures
        r matches Err(errors) ==> errors.len() > 0 && (errors@ == seq![ControlError::ListFailed]
            || forall|k: int| 0 <= k < errors.len() ==> is_signal_error(#[trigger] errors@[k])),
{
    let table = match process_names() {
        Some(v) => v,
        None => return Err(vec![ControlError::ListFailed]),
    };
    let pids = matching_pids(&table, process_name);
    let outcomes = terminate_each(&pids);
    proof {
        lemma_failures_are_signal_errors(outcomes@, pids@);
    }
    join_failures(&outcomes)
}

} // verus!
