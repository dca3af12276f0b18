use proot_core::{
    errno_result, Error, ExecveLookup, InfoBag, Reg, RegFile, RegVersion, Registers, SyscallTranslator, Tracee,
    TraceeRestartMethod, TraceeStatus, EACCES, EFAULT, EISDIR, ENOENT, SYSCALL_AVOIDER, SYSNUM_EXECVE,
};

fn regs_for(sys_num: u64) -> RegFile {
    let mut r = RegFile::zeroed();
    r.sys_num = sys_num;
    r.sys_arg_1 = 0x1000;
    r.sys_arg_2 = 0x2000;
    r.sys_result = 0;
    r.stack_pointer = 0x7fff_0000;
    r.instr_pointer = 0x40_0000;
    r
}

fn no_lookup() -> InfoBag {
    InfoBag { execve: None }
}

fn execve_bag(lookup: ExecveLookup) -> InfoBag {
    InfoBag { execve: Some(lookup) }
}

#[test]
fn errno_result_is_twos_complement() {
    assert_eq!(errno_result(ENOENT), (-2i64) as u64);
    assert_eq!(errno_result(EACCES), 0xffff_ffff_ffff_fff3);
    assert_eq!(errno_result(0), 0);
}

#[test]
fn register_get_and_set() {
    let mut regs = Registers::new();
    assert_eq!(regs.get(RegVersion::Current, Reg::SysArg3), Some(0));
    assert_eq!(regs.get(RegVersion::Original, Reg::SysArg3), None);
    assert_eq!(regs.get(RegVersion::Modified, Reg::SysArg3), None);
    regs.set(Reg::SysArg3, 7, "test");
    assert_eq!(regs.get(RegVersion::Current, Reg::SysArg3), Some(7));
    assert_eq!(regs.get(RegVersion::Current, Reg::SysArg2), Some(0));
}

#[test]
fn original_is_not_changed_by_later_writes() {
    let mut regs = Registers::new();
    regs.load_current(regs_for(1));
    regs.save_current_regs(RegVersion::Original);
    regs.set(Reg::SysArg1, 99, "test");
    regs.cancel_syscall("test");
    regs.save_current_regs(RegVersion::Modified);
    assert_eq!(regs.get(RegVersion::Original, Reg::SysArg1), Some(0x1000));
    assert_eq!(regs.get(RegVersion::Original, Reg::SysNum), Some(1));
    assert_eq!(regs.get(RegVersion::Modified, Reg::SysArg1), Some(99));
    assert_eq!(regs.get(RegVersion::Modified, Reg::SysNum), Some(SYSCALL_AVOIDER));
    // Read back twice: the same value.
    assert_eq!(regs.get(RegVersion::Original, Reg::SysArg1), regs.get(RegVersion::Original, Reg::SysArg1));
}

#[test]
fn restore_original_copies_one_register() {
    let mut regs = Registers::new();
    regs.restore_original(Reg::StackPointer, "nothing captured");
    assert_eq!(regs.get(RegVersion::Current, Reg::StackPointer), Some(0));
    regs.load_current(regs_for(1));
    regs.save_current_regs(RegVersion::Original);
    regs.set(Reg::StackPointer, 5, "test");
    regs.set(Reg::SysArg1, 6, "test");
    regs.restore_original(Reg::StackPointer, "test");
    assert_eq!(regs.get(RegVersion::Current, Reg::StackPointer), Some(0x7fff_0000));
    assert_eq!(regs.get(RegVersion::Current, Reg::SysArg1), Some(6));
}

#[test]
fn pushed_registers_restore_arguments_only_when_asked() {
    let mut regs = Registers::new();
    regs.load_current(regs_for(1));
    regs.save_current_regs(RegVersion::Original);
    regs.set(Reg::SysArg1, 6, "test");
    regs.set(Reg::SysResult, 3, "test");
    assert_eq!(regs.regs_to_push().sys_arg_1, 6);
    regs.set_restore_original_regs(true);
    let pushed = regs.regs_to_push();
    assert_eq!(pushed.sys_arg_1, 0x1000);
    assert_eq!(pushed.sys_result, 3);
}

#[test]
fn successful_syscall_cycle() {
    let mut t = Tracee::new(42);
    let bag = no_lookup();
    let pushed = t.translate_syscall(&bag, Ok(regs_for(0))).unwrap();
    assert_eq!(t.status, TraceeStatus::SysExit);
    assert_eq!(pushed, regs_for(0));
    assert_eq!(t.regs.get(RegVersion::Original, Reg::SysNum), Some(0));
    assert_eq!(t.regs.get(RegVersion::Modified, Reg::SysArg1), Some(0x1000));

    let mut exit_regs = regs_for(0);
    exit_regs.sys_result = 17;
    exit_regs.sys_arg_1 = 0xdead;
    let pushed = t.translate_syscall(&bag, Ok(exit_regs)).unwrap();
    assert_eq!(t.status, TraceeStatus::SysEnter);
    assert_eq!(pushed.sys_result, 17);
    assert_eq!(pushed.sys_arg_1, 0x1000);
}

#[test]
fn failed_fetch_leaves_tracee_alone() {
    let mut t = Tracee::new(42);
    let r = t.translate_syscall(&no_lookup(), Err(Error::sys(3)));
    assert_eq!(r, Err(Error::sys(3)));
    assert_eq!(t.status, TraceeStatus::SysEnter);
    assert_eq!(t.regs.get(RegVersion::Original, Reg::SysNum), None);
}

#[test]
fn enter_failure_cancels_syscall() {
    let mut t = Tracee::new(42);
    let bag = execve_bag(ExecveLookup::Unresolved(Error::sys(ENOENT)));
    let pushed = t.translate_syscall(&bag, Ok(regs_for(SYSNUM_EXECVE))).unwrap();
    assert_eq!(t.status, TraceeStatus::Error(Error::sys(ENOENT)));
    assert_eq!(t.status.get_errno(), ENOENT);
    assert!(!t.status.is_ok());
    assert_eq!(pushed.sys_num, SYSCALL_AVOIDER);
    assert_eq!(pushed.sys_result, (-2i64) as u64);
    assert_eq!(t.regs.get(RegVersion::Original, Reg::SysNum), Some(SYSNUM_EXECVE));
}

#[test]
fn unresolved_path_scenario() {
    let mut t = Tracee::new(7);
    let bag = execve_bag(ExecveLookup::Unresolved(Error::sys(ENOENT)));
    let pushed = t.translate_syscall(&bag, Ok(regs_for(SYSNUM_EXECVE))).unwrap();
    assert_eq!(pushed.sys_num, SYSCALL_AVOIDER);
    assert_eq!(pushed.sys_result, errno_result(ENOENT));
    assert_eq!(t.status, TraceeStatus::Error(Error::sys(ENOENT)));

    // The kernel reports its own error for the cancelled syscall.
    let mut exit_regs = regs_for(SYSCALL_AVOIDER);
    exit_regs.sys_result = (-38i64) as u64;
    let pushed = t.translate_syscall(&bag, Ok(exit_regs)).unwrap();
    assert_eq!(pushed.sys_result, errno_result(ENOENT));
    assert_eq!(pushed.sys_num, SYSCALL_AVOIDER);
    assert_eq!(t.status, TraceeStatus::SysEnter);
    assert_eq!(t.new_exe, None);
}

#[test]
fn exec_of_directory_scenario() {
    let mut t = Tracee::new(7);
    let bag = execve_bag(ExecveLookup::Unresolved(Error::sys(EISDIR)));
    t.translate_syscall(&bag, Ok(regs_for(SYSNUM_EXECVE))).unwrap();
    assert_eq!(t.status, TraceeStatus::Error(Error::sys(EACCES)));
    let pushed = t.translate_syscall(&bag, Ok(regs_for(SYSCALL_AVOIDER))).unwrap();
    assert_eq!(pushed.sys_result, errno_result(EACCES));
    assert_eq!(pushed.sys_result, (-13i64) as u64);
}

#[test]
fn script_exec_scenario() {
    let mut t = Tracee::new(7);
    let bag = execve_bag(ExecveLookup::Resolved {
        host_path: String::from("/bin/sh"),
        alias: Ok(Some(String::from("/bin/sh"))),
    });
    let pushed = t.translate_syscall(&bag, Ok(regs_for(SYSNUM_EXECVE))).unwrap();
    assert_eq!(t.status, TraceeStatus::SysExit);
    assert_eq!(pushed.sys_num, SYSNUM_EXECVE);
    assert_eq!(t.new_exe, Some(String::from("/bin/sh")));
}

#[test]
fn execve_without_lookup_is_refused() {
    let mut t = Tracee::new(7);
    t.translate_syscall(&no_lookup(), Ok(regs_for(SYSNUM_EXECVE))).unwrap();
    assert_eq!(t.status, TraceeStatus::Error(Error::sys(EFAULT)));
}

#[test]
fn no_exit_stage_fast_path() {
    let mut t = Tracee::new(7);
    t.restart_how = TraceeRestartMethod::WithoutExitStage;
    let bag = execve_bag(ExecveLookup::Unresolved(Error::sys(ENOENT)));
    let pushed = t.translate_syscall(&bag, Ok(regs_for(SYSNUM_EXECVE))).unwrap();
    assert_eq!(t.status, TraceeStatus::SysEnter);
    assert_eq!(pushed.stack_pointer, 0x7fff_0000);
    assert_eq!(pushed.sys_result, errno_result(ENOENT));

    let mut t = Tracee::new(8);
    t.restart_how = TraceeRestartMethod::WithoutExitStage;
    t.translate_syscall(&no_lookup(), Ok(regs_for(1))).unwrap();
    assert_eq!(t.status, TraceeStatus::SysEnter);
}

#[test]
fn status_never_skips_the_cycle() {
    let mut t = Tracee::new(7);
    let bags = [
        no_lookup(),
        execve_bag(ExecveLookup::Unresolved(Error::sys(ENOENT))),
        no_lookup(),
        execve_bag(ExecveLookup::Unresolved(Error::sys(ENOENT))),
    ];
    let nums = [1u64, SYSNUM_EXECVE, SYSNUM_EXECVE, 1];
    for (bag, num) in bags.iter().zip(nums.iter()) {
        let before = t.status;
        t.translate_syscall(bag, Ok(regs_for(*num))).unwrap();
        match before {
            TraceeStatus::SysEnter => assert!(t.status != TraceeStatus::SysEnter),
            _ => assert_eq!(t.status, TraceeStatus::SysEnter),
        }
        let before = t.status;
        t.translate_syscall(bag, Ok(regs_for(*num))).unwrap();
        assert_ne!(before, TraceeStatus::SysEnter);
        assert_eq!(t.status, TraceeStatus::SysEnter);
    }
}
