//! Syscall mediation core of a user-space chroot: the per-tracee enter/exit
//! state machine, its register snapshots, and the `execve` path translator.
//!
//! Everything that talks to the kernel or to the filesystem (reading and
//! writing registers, reading tracee memory, resolving paths) is done by the
//! caller, which hands the results in as plain values.

mod errors;
mod execve;
mod laws;
mod register;
mod tracee;
mod translation;

pub use errors::{errno_result, errno_word, Error, EACCES, EFAULT, EISDIR, ENOENT};
pub use execve::{exec_error, execve_new_exe, execve_outcome, translate, ExecveLookup, ExecveLookupView};
pub use laws::{
    allowed_transition, enter_failure_recorded, exec_of_directory_denied, exit_after_failure_reports_error,
    original_registers_kept, status_follows_cycle,
};
pub use register::{Reg, RegFile, RegVersion, Registers, RegistersView, Word, SYSCALL_AVOIDER};
pub use tracee::{opt_str_view, Tracee, TraceeRestartMethod, TraceeStatus, TraceeView};
pub use translation::{
    enter_new_exe, enter_outcome, enter_stage, exit_stage, stop, InfoBag, InfoBagView, SyscallTranslator,
    SYSNUM_EXECVE,
};
