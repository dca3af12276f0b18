use vstd::prelude::*;

verus! {

/// A machine word of the syscall register file.
pub type Word = u64;

/// The syscall number written to cancel a syscall: the kernel rejects it
/// without doing any work.
pub const SYSCALL_AVOIDER: Word = 0xffff_ffff_ffff_ffff;

/// The registers of the syscall ABI that translations read and write.
#[derive(Clone, Copy, Debug, PartialEq, Eq, Structural)]
pub enum Reg {
    SysNum,
    SysArg1,
    SysArg2,
    SysArg3,
    SysArg4,
    SysArg5,
    SysArg6,
    SysResult,
    StackPointer,
    InstrPointer,
}

/// Which of the three views of the register file is meant.
#[derive(Clone, Copy, Debug, PartialEq, Eq, Structural)]
pub enum RegVersion {
    /// The live view that translations read and write.
    Current,
    /// As delivered by the kernel at the start of the enter stage.
    Original,
    /// As left by the enter-stage translation.
    Modified,
}

/// One copy of the syscall register file.
#[derive(Clone, Copy, Debug, PartialEq, Eq, Structural)]
pub struct RegFile {
    pub sys_num: Word,
    pub sys_arg_1: Word,
    pub sys_arg_2: Word,
    pub sys_arg_3: Word,
    pub sys_arg_4: Word,
    pub sys_arg_5: Word,
    pub sys_arg_6: Word,
    pub sys_result: Word,
    pub stack_pointer: Word,
    pub instr_pointer: Word,
}

impl RegFile {
    pub open spec fn value(self, reg: Reg) -> Word {
        match reg {
            Reg::SysNum => self.sys_num,
            Reg::SysArg1 => self.sys_arg_1,
            Reg::SysArg2 => self.sys_arg_2,
            Reg::SysArg3 => self.sys_arg_3,
            Reg::SysArg4 => self.sys_arg_4,
            Reg::SysArg5 => self.sys_arg_5,
            Reg::SysArg6 => self.sys_arg_6,
            Reg::SysResult => self.sys_result,
            Reg::StackPointer => self.stack_pointer,
            Reg::InstrPointer => self.instr_pointer,
        }
    }

    /// This register file with `reg` holding `v` and every other register kept.
    pub open spec fn updated(self, reg: Reg, v: Word) -> RegFile {
        match reg {
            Reg::SysNum => RegFile { sys_num: v, ..self },
            Reg::SysArg1 => RegFile { sys_arg_1: v, ..self },
            Reg::SysArg2 => RegFile { sys_arg_2: v, ..self },
            Reg::SysArg3 => RegFile { sys_arg_3: v, ..self },
            Reg::SysArg4 => RegFile { sys_arg_4: v, ..self },
            Reg::SysArg5 => RegFile { sys_arg_5: v, ..self },
            Reg::SysArg6 => RegFile { sys_arg_6: v, ..self },
            Reg::SysResult => RegFile { sys_result: v, ..self },
            Reg::StackPointer => RegFile { stack_pointer: v, ..self },
            Reg::InstrPointer => RegFile { instr_pointer: v, ..self },
        }
    }

    /// This register file with the syscall arguments and the stack pointer
    /// taken from `orig`; the syscall number, the result and the
    /// instruction pointer are kept.
    pub open spec fn restored_from(self, orig: RegFile) -> RegFile {
        RegFile {
            sys_arg_1: orig.sys_arg_1,
            sys_arg_2: orig.sys_arg_2,
            sys_arg_3: orig.sys_arg_3,
            sys_arg_4: orig.sys_arg_4,
            sys_arg_5: orig.sys_arg_5,
            sys_arg_6: orig.sys_arg_6,
            stack_pointer: orig.stack_pointer,
            ..self
        }
    }

    /// A register file with every register at zero.
    pub fn zeroed() -> (r: RegFile)
        ensures
            forall|reg: Reg| #[trigger] r.value(reg) == 0,
    {
        RegFile {
            sys_num: 0,
            sys_arg_1: 0,
            sys_arg_2: 0,
            sys_arg_3: 0,
            sys_arg_4: 0,
            sys_arg_5: 0,
            sys_arg_6: 0,
            sys_result: 0,
            stack_pointer: 0,
            instr_pointer: 0,
        }
    }

    pub fn get(&self, reg: Reg) -> (r: Word)
        ensures
            r == self.value(reg),
    {
        match reg {
            Reg::SysNum => self.sys_num,
            Reg::SysArg1 => self.sys_arg_1,
            Reg::SysArg2 => self.sys_arg_2,
            Reg::SysArg3 => self.sys_arg_3,
            Reg::SysArg4 => self.sys_arg_4,
            Reg::SysArg5 => self.sys_arg_5,
            Reg::SysArg6 => self.sys_arg_6,
            Reg::SysResult => self.sys_result,
            Reg::StackPointer => self.stack_pointer,
            Reg::InstrPointer => self.instr_pointer,
        }
    }

    pub fn set(&mut self, reg: Reg, v: Word)
        ensures
            *final(self) == old(self).updated(reg, v),
    {
        match reg {
            Reg::SysNum => self.sys_num = v,
            Reg::SysArg1 => self.sys_arg_1 = v,
            Reg::SysArg2 => self.sys_arg_2 = v,
            Reg::SysArg3 => self.sys_arg_3 = v,
            Reg::SysArg4 => self.sys_arg_4 = v,
            Reg::SysArg5 => self.sys_arg_5 = v,
            Reg::SysArg6 => self.sys_arg_6 = v,
            Reg::SysResult => self.sys_result = v,
            Reg::StackPointer => self.stack_pointer = v,
            Reg::InstrPointer => self.instr_pointer = v,
        }
    }
}

/// What a `Registers` holds: the three views and the end-of-stop policy.
pub struct RegistersView {
    pub current: RegFile,
    pub original: Option<RegFile>,
    pub modified: Option<RegFile>,
    /// Whether the registers pushed at the end of the stop take the
    /// arguments and stack pointer back from `original`.
    pub restore_original: bool,
}

impl RegistersView {
    pub open spec fn view_value(self, version: RegVersion, reg: Reg) -> Option<Word> {
        match version {
            RegVersion::Current => Some(self.current.value(reg)),
            RegVersion::Original => match self.original {
                Some(o) => Some(o.value(reg)),
                None => None,
            },
            RegVersion::Modified => match self.modified {
                Some(m) => Some(m.value(reg)),
                None => None,
            },
        }
    }

    /// The register file that is handed back to the kernel.
    pub open spec fn pushed(self) -> RegFile {
        match self.original {
            Some(o) if self.restore_original => self.current.restored_from(o),
            _ => self.current,
        }
    }
}

/// The register snapshot set of one tracee for its current stop.
pub struct Registers {
    current: RegFile,
    original: Option<RegFile>,
    modified: Option<RegFile>,
    restore_original_regs: bool,
}

impl View for Registers {
    type V = RegistersView;

    closed spec fn view(&self) -> RegistersView {
        RegistersView {
            current: self.current,
            original: self.original,
            modified: self.modified,
            restore_original: self.restore_original_regs,
        }
    }
}

impl Registers {
    /// A snapshot set with a zeroed live view and nothing captured.
    pub fn new() -> (r: Registers)
        ensures
            forall|reg: Reg| #[trigger] r@.current.value(reg) == 0,
            r@.original is None,
            r@.modified is None,
            !r@.restore_original,
    {
        Registers {
            current: RegFile::zeroed(),
            original: None,
            modified: None,
            restore_original_regs: false,
        }
    }

    /// Takes the register values just read from the kernel as the live view.
    pub fn load_current(&mut self, regs: RegFile)
        ensures
            final(self)@ == (RegistersView { current: regs, ..old(self)@ }),
    {
        self.current = regs;
    }

    /// The register file to write back to the kernel at the end of the stop.
    pub fn regs_to_push(&self) -> (r: RegFile)
        ensures
            r == self@.pushed(),
    {
        match self.original {
            Some(o) if self.restore_original_regs => {
                let mut r = self.current;
                r.sys_arg_1 = o.sys_arg_1;
                r.sys_arg_2 = o.sys_arg_2;
                r.sys_arg_3 = o.sys_arg_3;
                r.sys_arg_4 = o.sys_arg_4;
                r.sys_arg_5 = o.sys_arg_5;
                r.sys_arg_6 = o.sys_arg_6;
                r.stack_pointer = o.stack_pointer;
                r
            },
            _ => self.current,
        }
    }

    /// The value of `reg` in the given view, if that view has been captured.
    pub fn get(&self, version: RegVersion, reg: Reg) -> (r: Option<Word>)
        ensures
            r == self@.view_value(version, reg),
    {
        match version {
            RegVersion::Current => Some(self.current.get(reg)),
            RegVersion::Original => match &self.original {
                Some(o) => Some(o.get(reg)),
                None => None,
            },
            RegVersion::Modified => match &self.modified {
                Some(m) => Some(m.get(reg)),
                None => None,
            },
        }
    }

    /// Writes `value` into `reg` of the live view; `_reason` is for diagnostics.
    pub fn set(&mut self, reg: Reg, value: Word, _reason: &str)
        ensures
            final(self)@ == (RegistersView {
                current: old(self)@.current.updated(reg, value),
                ..old(self)@
            }),
    {
        self.current.set(reg, value);
    }

    /// Copies the live view into `version`; copying it onto itself changes nothing.
    pub fn save_current_regs(&mut self, version: RegVersion)
        ensures
            final(self)@ == (match version {
                RegVersion::Current => old(self)@,
                RegVersion::Original => RegistersView {
                    original: Some(old(self)@.current),
                    ..old(self)@
                },
                RegVersion::Modified => RegistersView {
                    modified: Some(old(self)@.current),
                    ..old(self)@
                },
            }),
    {
        match version {
            RegVersion::Current => {},
            RegVersion::Original => self.original = Some(self.current),
            RegVersion::Modified => self.modified = Some(self.current),
        }
    }

    /// Copies `reg` from the original view into the live view; without an
    /// original view nothing changes.
    pub fn restore_original(&mut self, reg: Reg, _reason: &str)
        ensures
            final(self)@ == (match old(self)@.original {
                Some(o) => RegistersView {
                    current: old(self)@.current.updated(reg, o.value(reg)),
                    ..old(self)@
                },
                None => old(self)@,
            }),
    {
        match self.original {
            Some(o) => {
                let v = o.get(reg);
                self.current.set(reg, v);
            },
            None => {},
        }
    }

    /// Turns the syscall into one the kernel refuses without doing any work.
    pub fn cancel_syscall(&mut self, reason: &str)
        ensures
            final(self)@ == (RegistersView {
                current: old(self)@.current.updated(Reg::SysNum, SYSCALL_AVOIDER),
                ..old(self)@
            }),
    {
        self.set(Reg::SysNum, SYSCALL_AVOIDER, reason);
    }

    pub fn set_restore_original_regs(&mut self, restore: bool)
        ensures
            final(self)@ == (RegistersView { restore_original: restore, ..old(self)@ }),
    {
        self.restore_original_regs = restore;
    }
}

} // verus!
