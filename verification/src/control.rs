//! Process-control requests and their typed outcomes. Every operating
//! system failure code is folded into a closed taxonomy; raw platform
//! codes never escape except inside `Unknown`.

use vstd::prelude::*;

verus! {

/// The closed taxonomy of process-control failures.
#[derive(Clone, Copy, Debug, PartialEq, Eq, Structural)]
pub enum ProcessActionOutcome {
    PermissionDenied,
    NotFound,
    InvalidArgument,
    TransientUnavailable,
    Unknown(i32),
}

pub const EPERM_CODE: i32 = 1;
pub const ESRCH_CODE: i32 = 3;
pub const EAGAIN_CODE: i32 = 11;
pub const EACCES_CODE: i32 = 13;
pub const EINVAL_CODE: i32 = 22;

/// The outcome a raw errno folds into.
pub open spec fn classify_spec(e: i32) -> ProcessActionOutcome {
    if e == EPERM_CODE || e == EACCES_CODE {
        ProcessActionOutcome::PermissionDenied
    } else if e == ESRCH_CODE {
        ProcessActionOutcome::NotFound
    } else if e == EINVAL_CODE {
        ProcessActionOutcome::InvalidArgument
    } else if e == EAGAIN_CODE {
        ProcessActionOutcome::TransientUnavailable
    } else {
        ProcessActionOutcome::Unknown(e)
    }
}

/// Fold a raw errno into the taxonomy. A search that found no such
/// process is `NotFound`, never `Unknown`.
pub fn classify_errno(e: i32) -> (r: ProcessActionOutcome)
    ensures
        r == classify_spec(e),
{
    if e == EPERM_CODE || e == EACCES_CODE {
        ProcessActionOutcome::PermissionDenied
    } else if e == ESRCH_CODE {
        ProcessActionOutcome::NotFound
    } else if e == EINVAL_CODE {
        ProcessActionOutcome::InvalidArgument
    } else if e == EAGAIN_CODE {
        ProcessActionOutcome::TransientUnavailable
    } else {
        ProcessActionOutcome::Unknown(e)
    }
}

impl ProcessActionOutcome {
    /// The status-line wording of the outcome.
    pub fn message(&self) -> (r: String)
        ensures
            self is PermissionDenied ==> r@ == "Permission denied (try running as root)"@,
            self is NotFound ==> r@ == "Process not found"@,
            self is InvalidArgument ==> r@ == "Invalid argument"@,
            self is TransientUnavailable ==> r@ == "Resource temporarily unavailable"@,
            self is Unknown ==> r@ == "Unknown error"@,
    {
        match self {
            ProcessActionOutcome::PermissionDenied => "Permission denied (try running as root)".to_owned(),
            ProcessActionOutcome::NotFound => "Process not found".to_owned(),
            ProcessActionOutcome::InvalidArgument => "Invalid argument".to_owned(),
            ProcessActionOutcome::TransientUnavailable => "Resource temporarily unavailable".to_owned(),
            ProcessActionOutcome::Unknown(_) => "Unknown error".to_owned(),
        }
    }
}

/// Relies on nix::sys::signal::kill: delivers SIGTERM to the process
/// with that pid and reports failure as the raw OS errno. Whether it
/// succeeds depends on the state of the system, so nothing more is
/// promised of the result.
#[verifier::external_body]
fn send_sigterm(pid: u32) -> (r: Result<(), i32>) {
    match nix::sys::signal::kill(
        nix::unistd::Pid::from_raw(pid as i32),
        nix::sys::signal::Signal::SIGTERM,
    ) {
        Ok(()) => Ok(()),
        Err(e) => Err(e as i32),
    }
}

/// The scheduling value one step away from the current one, clamped at
/// the representable ends. Lower values mean higher scheduling
/// priority.
pub open spec fn bumped_priority(cur: i32, increase: bool) -> i32 {
    if increase {
        if cur == i32::MAX {
            cur
        } else {
            (cur + 1) as i32
        }
    } else {
        if cur == i32::MIN {
            cur
        } else {
            (cur - 1) as i32
        }
    }
}

/// The value a priority-change request writes back: the current OS
/// priority moved one step.
pub fn plan_priority(cur: i32, increase: bool) -> (r: i32)
    ensures
        r == bumped_priority(cur, increase),
{
    if increase {
        if cur == i32::MAX {
            cur
        } else {
            cur + 1
        }
    } else {
        if cur == i32::MIN {
            cur
        } else {
            cur - 1
        }
    }
}

/// Issues one-shot, user-triggered control requests against a pid and
/// folds every failure into the typed taxonomy.
pub struct ProcessController {
}

impl ProcessController {
    pub fn new() -> (c: ProcessController) {
        ProcessController {  }
    }

    /// Send the graceful termination signal, not a forced kill. Any
    /// failure comes back as a classified outcome, never a raw code.
    pub fn terminate(&self, pid: u32) -> (r: Result<(), ProcessActionOutcome>)
        ensures
            r matches Err(o) ==> exists|e: i32| o == #[trigger] classify_spec(e),
    {
        match send_sigterm(pid) {
            Ok(()) => Ok(()),
            Err(e) => {
                let o = classify_errno(e);
                proof {
                    assert(o == classify_spec(e));
                }
                Err(o)
            },
        }
    }
}

} // verus!
