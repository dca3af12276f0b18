use vstd::prelude::*;
use crate::errors::Error;
use crate::register::{Registers, RegistersView, Reg};

verus! {

/// Where a tracee stands in the cycle of its current syscall.
#[derive(Clone, Copy, Debug, PartialEq, Eq, Structural)]
pub enum TraceeStatus {
    /// Between syscalls: the next stop is the enter stage of a new one.
    SysEnter,
    /// The enter stage succeeded: the next stop is its exit stage.
    SysExit,
    /// The enter stage failed with this error: the syscall was cancelled
    /// and the exit stage reports the error.
    Error(Error),
}

impl TraceeStatus {
    pub fn is_ok(&self) -> (r: bool)
        ensures
            r == !(*self is Error),
    {
        !matches!(self, TraceeStatus::Error(_))
    }

    /// The error code of a failed enter stage, 0 otherwise.
    pub fn get_errno(&self) -> (r: i32)
        ensures
            r == (match *self {
                TraceeStatus::Error(e) => e.errno,
                _ => 0,
            }),
    {
        match self {
            TraceeStatus::Error(e) => e.get_errno(),
            _ => 0,
        }
    }
}

/// How the tracee is restarted after its enter stage.
#[derive(Clone, Copy, Debug, PartialEq, Eq, Structural)]
pub enum TraceeRestartMethod {
    /// The kernel stops the tracee again when the syscall exits.
    WithExitStage,
    /// No exit stop follows (the syscall is not reported on exit).
    WithoutExitStage,
}

/// The value of an optional string as a sequence of characters.
pub open spec fn opt_str_view(s: Option<String>) -> Option<Seq<char>> {
    match s {
        Some(v) => Some(v@),
        None => None,
    }
}

/// What a `Tracee` holds, with its strings as character sequences.
pub struct TraceeView {
    pub pid: i32,
    pub status: TraceeStatus,
    pub regs: RegistersView,
    pub restart_how: TraceeRestartMethod,
    pub new_exe: Option<Seq<char>>,
}

/// One traced process.
pub struct Tracee {
    pub pid: i32,
    pub status: TraceeStatus,
    pub regs: Registers,
    pub restart_how: TraceeRestartMethod,
    /// The pending value of `/proc/self/exe`, as a guest path.
    pub new_exe: Option<String>,
}

impl View for Tracee {
    type V = TraceeView;

    open spec fn view(&self) -> TraceeView {
        TraceeView {
            pid: self.pid,
            status: self.status,
            regs: self.regs@,
            restart_how: self.restart_how,
            new_exe: opt_str_view(self.new_exe),
        }
    }
}

impl Tracee {
    /// A tracee between syscalls, with no register captured and no pending
    /// executable path.
    pub fn new(pid: i32) -> (t: Tracee)
        ensures
            t@.pid == pid,
            t@.status == TraceeStatus::SysEnter,
            t@.restart_how == TraceeRestartMethod::WithExitStage,
            t@.new_exe is None,
            forall|reg: Reg| #[trigger] t@.regs.current.value(reg) == 0,
            t@.regs.original is None,
            t@.regs.modified is None,
            !t@.regs.restore_original,
    {
        Tracee {
            pid,
            status: TraceeStatus::SysEnter,
            regs: Registers::new(),
            restart_how: TraceeRestartMethod::WithExitStage,
            new_exe: None,
        }
    }

    /// Records the pending value of `/proc/self/exe`.
    pub fn set_new_exec(&mut self, new_exe: Option<String>)
        ensures
            final(self)@ == (TraceeView { new_exe: opt_str_view(new_exe), ..old(self)@ }),
    {
        self.new_exe = new_exe;
    }
}

} // verus!
