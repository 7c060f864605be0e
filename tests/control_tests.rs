use nix::errno::Errno;
use procmaster::control::{join_failures, matching_pids, terminate_each, validate_priority};
use procmaster::{
    change_priority, kill_process, killall, resume_process, suspend_process, terminate_process,
    ControlError,
};

// No process can have this pid: it lies above the kernel's pid limit.
const ABSENT_PID: i32 = i32::MAX;

#[test]
fn priority_bounds() {
    assert_eq!(validate_priority(20), Err(ControlError::InvalidPriority(20)));
    assert_eq!(validate_priority(-21), Err(ControlError::InvalidPriority(-21)));
    assert_eq!(validate_priority(-20), Ok(-20));
    assert_eq!(validate_priority(19), Ok(19));
    assert_eq!(change_priority(1, 20), Err(ControlError::InvalidPriority(20)));
    assert_eq!(change_priority(1, -21), Err(ControlError::InvalidPriority(-21)));
}

#[test]
fn priority_on_absent_process_fails() {
    assert_eq!(change_priority(ABSENT_PID, 19), Err(ControlError::SignalFailed(ABSENT_PID, None)));
    assert_eq!(change_priority(0, -20), Err(ControlError::NoSuchProcess(0)));
}

#[test]
fn signals_to_absent_process_fail_with_reason() {
    let expected = Err(ControlError::SignalFailed(ABSENT_PID, Some(Errno::ESRCH)));
    assert_eq!(kill_process(ABSENT_PID), expected);
    assert_eq!(terminate_process(ABSENT_PID), expected);
    assert_eq!(suspend_process(ABSENT_PID), expected);
    assert_eq!(resume_process(ABSENT_PID), expected);
}

#[test]
fn signals_to_non_positive_pid_are_refused() {
    assert_eq!(kill_process(0), Err(ControlError::NoSuchProcess(0)));
    assert_eq!(terminate_process(-1), Err(ControlError::NoSuchProcess(-1)));
}

#[test]
fn continue_signal_to_self_succeeds() {
    let me = nix::unistd::getpid().as_raw();
    assert_eq!(resume_process(me), Ok(()));
}

#[test]
fn matching_pids_picks_exact_names() {
    let table = vec![
        Some((10, "x".to_string())),
        Some((11, "xx".to_string())),
        None,
        Some((12, "x".to_string())),
        Some((13, "y".to_string())),
        Some((14, "x".to_string())),
    ];
    assert_eq!(matching_pids(&table, "x"), vec![10, 12, 14]);
    assert!(matching_pids(&table, "z").is_empty());
}

#[test]
fn one_failure_among_three_is_reported_alone() {
    let outcomes = vec![
        Ok(()),
        Err(ControlError::SignalFailed(12, Some(Errno::EPERM))),
        Ok(()),
    ];
    assert_eq!(
        join_failures(&outcomes),
        Err(vec![ControlError::SignalFailed(12, Some(Errno::EPERM))])
    );
    assert_eq!(join_failures(&vec![Ok(()), Ok(())]), Ok(()));
    assert_eq!(join_failures(&Vec::new()), Ok(()));
}

#[test]
fn terminate_each_goes_on_past_failures() {
    let outcomes = terminate_each(&vec![ABSENT_PID, 0, ABSENT_PID]);
    assert_eq!(outcomes.len(), 3);
    assert_eq!(outcomes[0], Err(ControlError::SignalFailed(ABSENT_PID, Some(Errno::ESRCH))));
    assert_eq!(outcomes[1], Err(ControlError::NoSuchProcess(0)));
    assert_eq!(outcomes[2], Err(ControlError::SignalFailed(ABSENT_PID, Some(Errno::ESRCH))));
}

#[test]
fn killall_of_unknown_name_succeeds() {
    assert_eq!(killall("no-such-command-name"), Ok(()));
}
