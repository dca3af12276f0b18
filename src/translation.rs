use vstd::prelude::*;
use crate::errors::{Error, EFAULT, errno_result, errno_word};
use crate::execve::{self, ExecveLookup, ExecveLookupView, execve_new_exe, execve_outcome};
use crate::register::{Reg, RegFile, RegVersion, RegistersView, Word, SYSCALL_AVOIDER};
use crate::tracee::{Tracee, TraceeRestartMethod, TraceeStatus, TraceeView};

verus! {

/// Syscall number of `execve` in the x86-64 syscall ABI.
pub const SYSNUM_EXECVE: Word = 59;

/// What the collaborators outside this library (tracee memory, the
/// filesystem translation) reported for the current stop.
pub struct InfoBag {
    /// The lookup of the path argument, for an `execve` stop.
    pub execve: Option<ExecveLookup>,
}

pub struct InfoBagView {
    pub execve: Option<ExecveLookupView>,
}

impl View for InfoBag {
    type V = InfoBagView;

    open spec fn view(&self) -> InfoBagView {
        InfoBagView {
            execve: match self.execve {
                Some(l) => Some(l@),
                None => None,
            },
        }
    }
}

/// Outcome of the syscall-specific enter translation of syscall `sysnum`.
/// An `execve` whose path was not looked up is refused as a bad address;
/// every other syscall passes untranslated.
pub open spec fn enter_outcome(sysnum: Word, bag: InfoBagView) -> Result<(), Error> {
    if sysnum == SYSNUM_EXECVE {
        match bag.execve {
            Some(l) => execve_outcome(l),
            None => Err(Error { errno: EFAULT }),
        }
    } else {
        Ok(())
    }
}

/// The pending `/proc/self/exe` value after the enter translation of
/// syscall `sysnum`, given the value `prev` before it.
pub open spec fn enter_new_exe(sysnum: Word, bag: InfoBagView, prev: Option<Seq<char>>) -> Option<Seq<char>> {
    if sysnum == SYSNUM_EXECVE {
        match bag.execve {
            Some(l) => execve_new_exe(l, prev),
            None => prev,
        }
    } else {
        prev
    }
}

/// The tracee after enter-stage processing of the syscall whose registers
/// are in `t.regs.current`.
pub open spec fn enter_stage(t: TraceeView, bag: InfoBagView) -> TraceeView {
    let orig = t.regs.current;
    let outcome = enter_outcome(orig.sys_num, bag);
    let captured = RegistersView {
        original: Some(orig),
        modified: Some(orig),
        restore_original: false,
        ..t.regs
    };
    let (status, regs) = match outcome {
        Ok(_) => (TraceeStatus::SysExit, captured),
        Err(e) => (TraceeStatus::Error(e), RegistersView {
            current: orig.updated(Reg::SysNum, SYSCALL_AVOIDER).updated(
                Reg::SysResult,
                errno_word(e.errno),
            ),
            ..captured
        }),
    };
    let (status, regs) = if t.restart_how == TraceeRestartMethod::WithoutExitStage {
        (TraceeStatus::SysEnter, RegistersView {
            current: regs.current.updated(Reg::StackPointer, orig.stack_pointer),
            ..regs
        })
    } else {
        (status, regs)
    };
    TraceeView {
        status,
        regs,
        new_exe: enter_new_exe(orig.sys_num, bag, t.new_exe),
        ..t
    }
}

/// The tracee after exit-stage processing: a failed enter stage has its
/// error written to the result register, and the cycle starts over.
pub open spec fn exit_stage(t: TraceeView) -> TraceeView {
    let regs = RegistersView { restore_original: true, ..t.regs };
    let regs = match t.status {
        TraceeStatus::Error(e) => RegistersView {
            current: regs.current.updated(Reg::SysResult, errno_word(e.errno)),
            ..regs
        },
        _ => regs,
    };
    TraceeView { status: TraceeStatus::SysEnter, regs, ..t }
}

/// The tracee after one stop whose registers read from the kernel were `fetched`.
pub open spec fn stop(t: TraceeView, bag: InfoBagView, fetched: RegFile) -> TraceeView {
    let loaded = TraceeView { regs: RegistersView { current: fetched, ..t.regs }, ..t };
    if t.status == TraceeStatus::SysEnter {
        enter_stage(loaded, bag)
    } else {
        exit_stage(loaded)
    }
}

/// Runs the syscall-specific enter translator of the tracee's current syscall.
fn translate_enter(info_bag: &InfoBag, tracee: &mut Tracee) -> (r: Result<(), Error>)
    ensures
        r == enter_outcome(old(tracee)@.regs.current.sys_num, info_bag@),
        final(tracee)@ == (TraceeView {
            new_exe: enter_new_exe(old(tracee)@.regs.current.sys_num, info_bag@, old(tracee)@.new_exe),
            ..old(tracee)@
        }),
{
    let sysnum = tracee.regs.get(RegVersion::Current, Reg::SysNum);
    if sysnum == Some(SYSNUM_EXECVE) {
        match &info_bag.execve {
            Some(lookup) => execve::translate(tracee, lookup),
            None => Err(Error::sys(EFAULT)),
        }
    } else {
        Ok(())
    }
}

/// The enter/exit cycle of a traced process's syscalls.
pub trait SyscallTranslator {
    /// Handles one syscall stop, given the registers read from the kernel,
    /// and gives back the registers to write to it.
    fn translate_syscall(&mut self, info_bag: &InfoBag, fetched: Result<RegFile, Error>) -> Result<RegFile, Error>;

    fn translate_syscall_enter(&mut self, info_bag: &InfoBag);

    fn translate_syscall_exit(&mut self);
}

impl SyscallTranslator for Tracee {
    /// Handles the enter or the exit stage of the current syscall, on the
    /// registers read from the kernel. A failed read leaves the tracee as it
    /// was and is handed back; otherwise the result is the register file to
    /// write back.
    fn translate_syscall(&mut self, info_bag: &InfoBag, fetched: Result<RegFile, Error>) -> (r: Result<RegFile, Error>)
        ensures
            fetched is Err ==> *final(self) == *old(self) && r == fetched,
            fetched is Ok ==> final(self)@ == stop(old(self)@, info_bag@, fetched->Ok_0)
                && r == Ok::<RegFile, Error>(final(self)@.regs.pushed()),
    {
        let regs = match fetched {
            Ok(regs) => regs,
            Err(e) => return Err(e),
        };
        self.regs.load_current(regs);
        match self.status {
            TraceeStatus::SysEnter => self.translate_syscall_enter(info_bag),
            TraceeStatus::SysExit | TraceeStatus::Error(_) => self.translate_syscall_exit(),
        }
        Ok(self.regs.regs_to_push())
    }

    /// Enter stage: captures the original registers, runs the syscall's
    /// translator, captures what it left, and on failure cancels the
    /// syscall and records the error for the exit stage.
    fn translate_syscall_enter(&mut self, info_bag: &InfoBag)
        ensures
            final(self)@ == enter_stage(old(self)@, info_bag@),
    {
        self.regs.set_restore_original_regs(false);
        self.regs.save_current_regs(RegVersion::Original);

        let status = translate_enter(info_bag, self);

        self.regs.save_current_regs(RegVersion::Modified);

        match status {
            Err(error) => {
                self.regs.cancel_syscall("Error in enter stage, avoid syscall");
                self.regs.set(
                    Reg::SysResult,
                    errno_result(error.get_errno()),
                    "Error in enter stage, record errno for exit stage",
                );
                self.status = TraceeStatus::Error(error);
            },
            Ok(()) => {
                self.status = TraceeStatus::SysExit;
            },
        }

        // No exit stop follows: restore the stack pointer now.
        if self.restart_how == TraceeRestartMethod::WithoutExitStage {
            self.status = TraceeStatus::SysEnter;
            self.regs.restore_original(
                Reg::StackPointer,
                "following enter stage, restoring stack pointer early because no exit stage",
            );
        }
    }

    /// Exit stage: reports the error of a failed enter stage in the result
    /// register, and starts the cycle over.
    fn translate_syscall_exit(&mut self)
        ensures
            final(self)@ == exit_stage(old(self)@),
    {
        self.regs.set_restore_original_regs(true);

        // No syscall has an exit-stage translator: after a successful enter
        // stage the kernel's result stands.
        if !self.status.is_ok() {
            self.regs.set(
                Reg::SysResult,
                errno_result(self.status.get_errno()),
                "Following previous error in enter stage, setting errno",
            );
        }

        self.status = TraceeStatus::SysEnter;
    }
}

} // verus!
