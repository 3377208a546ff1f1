use termios::driver::{
    isatty, set_attr_request, ttyname_check_device, ttyname_confirm, ttyname_terminate, Arch,
    FileStat, IoctlRequests, Pid, DRAIN_ARG, SEND_BREAK_ARG,
};
use termios::errno::{check_query_return, check_return, Errno};
use termios::termios::{Action, OptionalActions, QueueSelector, Winsize};

#[test]
fn set_attr_request_adds_the_ordinal() {
    assert_eq!(set_attr_request(Arch::X86_64, OptionalActions::Now), 0x402C_542B);
    assert_eq!(set_attr_request(Arch::X86_64, OptionalActions::Drain), 0x402C_542C);
    assert_eq!(set_attr_request(Arch::X86_64, OptionalActions::Flush), 0x402C_542D);
    assert_eq!(set_attr_request(Arch::Loongarch64, OptionalActions::Drain), 0x5403);
    assert_eq!(set_attr_request(Arch::Powerpc64, OptionalActions::Now), 0x802C_7414);
    assert_eq!(set_attr_request(Arch::Powerpc64, OptionalActions::Flush), 0x802C_7416);
    assert_eq!(set_attr_request(Arch::Powerpc, OptionalActions::Drain), 0x802C_7415);
}

#[test]
fn mips_selectors_are_the_set_requests() {
    for arch in [Arch::Mips, Arch::Mips64] {
        let r = IoctlRequests::for_arch(arch);
        assert!(r.extended);
        assert!(r.actions_are_requests);
        assert_eq!(r.get_attr, 0x4030_542A);
        assert_eq!(set_attr_request(arch, OptionalActions::Now), 0x540E);
        assert_eq!(set_attr_request(arch, OptionalActions::Drain), 0x540F);
        assert_eq!(set_attr_request(arch, OptionalActions::Flush), 0x5410);
    }
    assert!(!IoctlRequests::for_arch(Arch::X86_64).actions_are_requests);
    assert_eq!(set_attr_request(Arch::S390x, OptionalActions::Flush), 0x5404);
}

#[test]
fn extended_record_by_architecture() {
    let extended = [Arch::X86, Arch::X86_64, Arch::X32, Arch::Riscv64, Arch::Aarch64, Arch::Arm];
    for arch in extended {
        let r = IoctlRequests::for_arch(arch);
        assert!(r.extended);
        assert_eq!(r.get_attr, 0x802C_542A);
        assert_eq!(r.set_attr, 0x402C_542B);
    }
    for arch in [Arch::Powerpc, Arch::Powerpc64] {
        let r = IoctlRequests::for_arch(arch);
        assert!(!r.extended);
        assert_eq!(r.get_attr, 0x402C_7413);
        assert_eq!(r.set_attr, 0x802C_7414);
    }
    for arch in [Arch::S390x, Arch::Loongarch64] {
        let r = IoctlRequests::for_arch(arch);
        assert!(!r.extended);
        assert_eq!(r.get_attr, 0x5401);
        assert_eq!(r.set_attr, 0x5402);
    }
    assert_eq!(IoctlRequests::for_arch(Arch::Arm).get_winsize, 0x5413);
}

#[test]
fn selector_arguments() {
    assert_eq!(OptionalActions::Now.raw(), 0);
    assert_eq!(OptionalActions::Flush.raw(), 2);
    assert_eq!(QueueSelector::IFlush.raw(), 0);
    assert_eq!(QueueSelector::OFlush.raw(), 1);
    assert_eq!(QueueSelector::IOFlush.raw(), 2);
    assert_eq!(Action::OOff.raw(), 0);
    assert_eq!(Action::OOn.raw(), 1);
    assert_eq!(Action::IOff.raw(), 2);
    assert_eq!(Action::IOn.raw(), 3);
    assert_eq!(SEND_BREAK_ARG, 0);
    assert_eq!(DRAIN_ARG, 1);
}

#[test]
fn return_values() {
    assert_eq!(check_return(-22), Err(Errno::from_raw(Errno::INVAL)));
    assert_eq!(check_return(-1).map_err(|e| e.raw()), Err(1));
    assert_eq!(check_return(-4095).map_err(|e| e.raw()), Err(4095));
    assert_eq!(check_return(0), Ok(0));
    assert_eq!(check_return(17), Ok(17));
    assert_eq!(check_return(-4096), Ok(-4096isize as usize));
}

#[test]
fn terminal_queries_merge_not_a_terminal() {
    let notty = Err(Errno::from_raw(Errno::NOTTY));
    assert_eq!(check_query_return(-25), notty);
    assert_eq!(check_query_return(-22), notty);
    assert_eq!(check_query_return(-4).map_err(|e| e.raw()), Err(4));
    assert_eq!(check_query_return(-9).map_err(|e| e.raw()), Err(9));
    assert_eq!(check_query_return(0), Ok(0));
    assert_eq!(check_return(-22), Err(Errno::from_raw(Errno::INVAL)));
}

#[test]
fn process_ids_must_be_positive() {
    assert!(Pid::from_raw(0).is_none());
    assert!(Pid::from_raw(-5).is_none());
    assert_eq!(Pid::from_raw(42).map(|p| p.as_raw()), Some(42));
}

#[test]
fn terminal_probe() {
    let ws = Winsize { ws_row: 24, ws_col: 80, ws_xpixel: 0, ws_ypixel: 0 };
    assert!(isatty(&Ok(ws)));
    assert!(!isatty(&Err(Errno::from_raw(Errno::NOTTY))));
    assert!(!isatty(&Err(Errno::from_raw(Errno::INVAL))));
}

#[test]
fn ttyname_refuses_non_character_devices() {
    let regular = FileStat { mode: 0o100644, dev: 1, ino: 2 };
    assert_eq!(ttyname_check_device(&regular), Err(Errno::from_raw(Errno::NOTTY)));
    let dir = FileStat { mode: 0o040755, dev: 1, ino: 2 };
    assert_eq!(ttyname_check_device(&dir), Err(Errno::from_raw(Errno::NOTTY)));
    let tty = FileStat { mode: 0o020620, dev: 1, ino: 2 };
    assert_eq!(ttyname_check_device(&tty), Ok(()));
}

#[test]
fn ttyname_needs_room_for_the_terminator() {
    let mut full = b"/dev/pts/3".to_vec();
    assert_eq!(ttyname_terminate(&mut full, 10), Err(Errno::from_raw(Errno::RANGE)));
    assert_eq!(full, b"/dev/pts/3".to_vec());
    let mut roomy = b"/dev/pts/3xx".to_vec();
    assert_eq!(ttyname_terminate(&mut roomy, 10), Ok(10));
    assert_eq!(roomy, b"/dev/pts/3\0x".to_vec());
}

#[test]
fn ttyname_detects_a_replaced_file() {
    let fd = FileStat { mode: 0o020620, dev: 22, ino: 6 };
    let same = FileStat { mode: 0o020620, dev: 22, ino: 6 };
    let other_inode = FileStat { mode: 0o020620, dev: 22, ino: 7 };
    let other_device = FileStat { mode: 0o020620, dev: 23, ino: 6 };
    assert_eq!(ttyname_confirm(&fd, &same, 10), Ok(10));
    assert_eq!(ttyname_confirm(&fd, &other_inode, 10), Err(Errno::from_raw(Errno::NODEV)));
    assert_eq!(ttyname_confirm(&fd, &other_device, 10), Err(Errno::from_raw(Errno::NODEV)));
}
