use vstd::prelude::*;
use crate::errors::{Error, EACCES, EISDIR, errno_word};
use crate::execve::ExecveLookupView;
use crate::register::{Reg, RegFile, SYSCALL_AVOIDER};
use crate::tracee::{TraceeRestartMethod, TraceeStatus, TraceeView};
use crate::translation::{InfoBagView, SYSNUM_EXECVE, enter_outcome, stop};

verus! {

/// The status changes a stop may make: from `SysEnter` to `SysExit`, to
/// `Error`, or (when no exit stop follows) back to `SysEnter`; from
/// `SysExit` or `Error` only back to `SysEnter`.
pub open spec fn allowed_transition(from: TraceeStatus, to: TraceeStatus, restart: TraceeRestartMethod) -> bool {
    match from {
        TraceeStatus::SysEnter => match to {
            TraceeStatus::SysEnter => restart == TraceeRestartMethod::WithoutExitStage,
            _ => restart == TraceeRestartMethod::WithExitStage,
        },
        _ => to == TraceeStatus::SysEnter,
    }
}

/// Every stop moves the status along the syscall cycle, and nowhere else:
/// `SysEnter` → `SysExit` | `Error(_)` | `SysEnter` (no exit stop) → `SysEnter`.
pub proof fn status_follows_cycle(t: TraceeView, bag: InfoBagView, fetched: RegFile)
    ensures
        allowed_transition(t.status, stop(t, bag, fetched).status, t.restart_how),
{
}

/// The original registers are captured once, from the registers read at the
/// enter stop, and the rest of that stop and the exit stop that follows
/// leave them as captured.
pub proof fn original_registers_kept(t: TraceeView, bag: InfoBagView, fetched: RegFile, next: RegFile)
    requires
        t.status == TraceeStatus::SysEnter,
        t.restart_how == TraceeRestartMethod::WithExitStage,
    ensures
        stop(t, bag, fetched).regs.original == Some(fetched),
        stop(stop(t, bag, fetched), bag, next).regs.original == Some(fetched),
{
}

/// An enter translation that fails with `e` cancels the syscall, reports
/// `-e` in the result register and leaves the status at `Error(e)`.
pub proof fn enter_failure_recorded(t: TraceeView, bag: InfoBagView, fetched: RegFile, e: Error)
    requires
        t.status == TraceeStatus::SysEnter,
        t.restart_how == TraceeRestartMethod::WithExitStage,
        enter_outcome(fetched.sys_num, bag) == Err::<(), Error>(e),
    ensures
        stop(t, bag, fetched).status == TraceeStatus::Error(e),
        stop(t, bag, fetched).regs.current.value(Reg::SysResult) == errno_word(e.errno),
        stop(t, bag, fetched).regs.current.value(Reg::SysNum) == SYSCALL_AVOIDER,
{
}

/// The exit stop after a failed enter stage writes `-e` to the result
/// register and changes no other register: no exit translation runs.
pub proof fn exit_after_failure_reports_error(t: TraceeView, bag: InfoBagView, fetched: RegFile, e: Error)
    requires
        t.status == TraceeStatus::Error(e),
    ensures
        stop(t, bag, fetched).regs.current == fetched.updated(Reg::SysResult, errno_word(e.errno)),
        stop(t, bag, fetched).status == TraceeStatus::SysEnter,
        stop(t, bag, fetched).new_exe == t.new_exe,
{
}

/// An `execve` of a directory fails with "permission denied", never with
/// "is a directory".
pub proof fn exec_of_directory_denied(t: TraceeView, bag: InfoBagView, fetched: RegFile)
    requires
        t.status == TraceeStatus::SysEnter,
        t.restart_how == TraceeRestartMethod::WithExitStage,
        fetched.sys_num == SYSNUM_EXECVE,
        bag.execve == Some(ExecveLookupView::Unresolved(Error { errno: EISDIR })),
    ensures
        stop(t, bag, fetched).status == TraceeStatus::Error(Error { errno: EACCES }),
        stop(t, bag, fetched).regs.current.value(Reg::SysResult) == errno_word(EACCES),
        forall|b: InfoBagView|
            #[trigger] enter_outcome(SYSNUM_EXECVE, b) != Err::<(), Error>(Error { errno: EISDIR }),
{
}

} // verus!
