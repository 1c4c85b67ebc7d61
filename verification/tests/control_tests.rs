use lyvoxa::control::{classify_errno, plan_priority, ProcessActionOutcome, ProcessController};

#[test]
fn terminate_nonexistent_pid_is_not_found() {
    // far above any live pid on this machine, and valid for the syscall
    let controller = ProcessController::new();
    let r = controller.terminate(2_000_000_000);
    assert_eq!(r, Err(ProcessActionOutcome::NotFound));
}

#[test]
fn errno_codes_map_into_the_closed_taxonomy() {
    assert_eq!(classify_errno(1), ProcessActionOutcome::PermissionDenied);
    assert_eq!(classify_errno(13), ProcessActionOutcome::PermissionDenied);
    assert_eq!(classify_errno(3), ProcessActionOutcome::NotFound);
    assert_eq!(classify_errno(22), ProcessActionOutcome::InvalidArgument);
    assert_eq!(classify_errno(11), ProcessActionOutcome::TransientUnavailable);
    assert_eq!(classify_errno(77), ProcessActionOutcome::Unknown(77));
}

#[test]
fn outcome_messages_are_user_readable() {
    assert_eq!(
        ProcessActionOutcome::PermissionDenied.message(),
        "Permission denied (try running as root)"
    );
    assert_eq!(ProcessActionOutcome::NotFound.message(), "Process not found");
    assert_eq!(ProcessActionOutcome::InvalidArgument.message(), "Invalid argument");
    assert_eq!(
        ProcessActionOutcome::TransientUnavailable.message(),
        "Resource temporarily unavailable"
    );
    assert_eq!(ProcessActionOutcome::Unknown(99).message(), "Unknown error");
}

#[test]
fn priority_moves_one_step_and_clamps() {
    assert_eq!(plan_priority(0, true), 1);
    assert_eq!(plan_priority(0, false), -1);
    assert_eq!(plan_priority(19, true), 20);
    assert_eq!(plan_priority(i32::MAX, true), i32::MAX);
    assert_eq!(plan_priority(i32::MIN, false), i32::MIN);
}
