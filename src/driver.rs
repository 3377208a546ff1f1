use vstd::prelude::*;
use crate::errno::Errno;
use crate::termios::{OptionalActions, Winsize};

verus! {

/// A Linux target architecture. The request codes of the terminal calls,
/// and whether the control-state record carries separate speed fields,
/// differ between them.
#[derive(Clone, Copy, Debug, PartialEq, Eq, Hash, Structural)]
pub enum Arch {
    /// 32-bit x86.
    X86,
    /// x86-64.
    X86_64,
    /// x86-64 with 32-bit pointers.
    X32,
    /// 64-bit RISC-V.
    Riscv64,
    /// 64-bit Arm.
    Aarch64,
    /// 32-bit Arm.
    Arm,
    /// 32-bit MIPS.
    Mips,
    /// 64-bit MIPS.
    Mips64,
    /// 32-bit PowerPC.
    Powerpc,
    /// 64-bit PowerPC.
    Powerpc64,
    /// IBM Z.
    S390x,
    /// 64-bit LoongArch.
    Loongarch64,
}

/// The request codes of the terminal calls on one architecture.
#[derive(Clone, Copy, Debug, PartialEq, Eq, Hash, Structural)]
pub struct IoctlRequests {
    /// Reads the control state.
    pub get_attr: u32,
    /// Writes the control state at once; the later selectors follow it.
    pub set_attr: u32,
    /// Reads the window size.
    pub get_winsize: u32,
    /// Writes the window size.
    pub set_winsize: u32,
    /// Reads the foreground process group.
    pub get_pgrp: u32,
    /// Writes the foreground process group.
    pub set_pgrp: u32,
    /// Reads the session id.
    pub get_sid: u32,
    /// Sends a break, or waits for output to drain.
    pub send_break: u32,
    /// Discards a queue.
    pub flush: u32,
    /// Suspends or restarts a direction.
    pub flow: u32,
    /// Whether the control state travels in the extended record, with
    /// separate 32-bit input and output speeds (`termios2`), rather than in
    /// the legacy one with the baud field alone.
    pub extended: bool,
    /// The value of `TCSANOW`; the other selectors follow it.
    pub actions_base: u32,
    /// Whether the selectors' values are themselves the "set" requests
    /// (`TCSANOW` equals `TCSETS`), so that no base code is added to them.
    pub actions_are_requests: bool,
}

/// The request codes that `arch` gives the terminal calls. Where the
/// extended record exists they are `TCGETS2` and `TCSETS2`, else `TCGETS`
/// and `TCSETS`.
pub open spec fn requests_of(arch: Arch) -> IoctlRequests {
    match arch {
        Arch::X86 => IoctlRequests {
            get_attr: 0x802c542a,
            set_attr: 0x402c542b,
            get_winsize: 0x5413,
            set_winsize: 0x5414,
            get_pgrp: 0x540f,
            set_pgrp: 0x5410,
            get_sid: 0x5429,
            send_break: 0x5409,
            flush: 0x540b,
            flow: 0x540a,
            extended: true,
            actions_base: 0x0,
            actions_are_requests: false,
        },
        Arch::X86_64 => IoctlRequests {
            get_attr: 0x802c542a,
            set_attr: 0x402c542b,
            get_winsize: 0x5413,
            set_winsize: 0x5414,
            get_pgrp: 0x540f,
            set_pgrp: 0x5410,
            get_sid: 0x5429,
            send_break: 0x5409,
            flush: 0x540b,
            flow: 0x540a,
            extended: true,
            actions_base: 0x0,
            actions_are_requests: false,
        },
        Arch::X32 => IoctlRequests {
            get_attr: 0x802c542a,
            set_attr: 0x402c542b,
            get_winsize: 0x5413,
            set_winsize: 0x5414,
            get_pgrp: 0x540f,
            set_pgrp: 0x5410,
            get_sid: 0x5429,
            send_break: 0x5409,
            flush: 0x540b,
            flow: 0x540a,
            extended: true,
            actions_base: 0x0,
            actions_are_requests: false,
        },
        Arch::Riscv64 => IoctlRequests {
            get_attr: 0x802c542a,
            set_attr: 0x402c542b,
            get_winsize: 0x5413,
            set_winsize: 0x5414,
            get_pgrp: 0x540f,
            set_pgrp: 0x5410,
            get_sid: 0x5429,
            send_break: 0x5409,
            flush: 0x540b,
            flow: 0x540a,
            extended: true,
            actions_base: 0x0,
            actions_are_requests: false,
        },
        Arch::Aarch64 => IoctlRequests {
            get_attr: 0x802c542a,
            set_attr: 0x402c542b,
            get_winsize: 0x5413,
            set_winsize: 0x5414,
            get_pgrp: 0x540f,
            set_pgrp: 0x5410,
            get_sid: 0x5429,
            send_break: 0x5409,
            flush: 0x540b,
            flow: 0x540a,
            extended: true,
            actions_base: 0x0,
            actions_are_requests: false,
        },
        Arch::Arm => IoctlRequests {
            get_attr: 0x802c542a,
            set_attr: 0x402c542b,
            get_winsize: 0x5413,
            set_winsize: 0x5414,
            get_pgrp: 0x540f,
            set_pgrp: 0x5410,
            get_sid: 0x5429,
            send_break: 0x5409,
            flush: 0x540b,
            flow: 0x540a,
            extended: true,
            actions_base: 0x0,
            actions_are_requests: false,
        },
        Arch::Mips => IoctlRequests {
            get_attr: 0x4030542a,
            set_attr: 0x8030542b,
            get_winsize: 0x40087468,
            set_winsize: 0x80087467,
            get_pgrp: 0x40047477,
            set_pgrp: 0x80047476,
            get_sid: 0x7416,
            send_break: 0x5405,
            flush: 0x5407,
            flow: 0x5406,
            extended: true,
            actions_base: 0x540e,
            actions_are_requests: true,
        },
        Arch::Mips64 => IoctlRequests {
            get_attr: 0x4030542a,
            set_attr: 0x8030542b,
            get_winsize: 0x40087468,
            set_winsize: 0x80087467,
            get_pgrp: 0x40047477,
            set_pgrp: 0x80047476,
            get_sid: 0x7416,
            send_break: 0x5405,
            flush: 0x5407,
            flow: 0x5406,
            extended: true,
            actions_base: 0x540e,
            actions_are_requests: true,
        },
        Arch::Powerpc => IoctlRequests {
            get_attr: 0x402c7413,
            set_attr: 0x802c7414,
            get_winsize: 0x40087468,
            set_winsize: 0x80087467,
            get_pgrp: 0x40047477,
            set_pgrp: 0x80047476,
            get_sid: 0x5429,
            send_break: 0x2000741d,
            flush: 0x2000741f,
            flow: 0x2000741e,
            extended: false,
            actions_base: 0x0,
            actions_are_requests: false,
        },
        Arch::Powerpc64 => IoctlRequests {
            get_attr: 0x402c7413,
            set_attr: 0x802c7414,
            get_winsize: 0x40087468,
            set_winsize: 0x80087467,
            get_pgrp: 0x40047477,
            set_pgrp: 0x80047476,
            get_sid: 0x5429,
            send_break: 0x2000741d,
            flush: 0x2000741f,
            flow: 0x2000741e,
            extended: false,
            actions_base: 0x0,
            actions_are_requests: false,
        },
        Arch::S390x => IoctlRequests {
            get_attr: 0x5401,
            set_attr: 0x5402,
            get_winsize: 0x5413,
            set_winsize: 0x5414,
            get_pgrp: 0x540f,
            set_pgrp: 0x5410,
            get_sid: 0x5429,
            send_break: 0x5409,
            flush: 0x540b,
            flow: 0x540a,
            extended: false,
            actions_base: 0x0,
            actions_are_requests: false,
        },
        Arch::Loongarch64 => IoctlRequests {
            get_attr: 0x5401,
            set_attr: 0x5402,
            get_winsize: 0x5413,
            set_winsize: 0x5414,
            get_pgrp: 0x540f,
            set_pgrp: 0x5410,
            get_sid: 0x5429,
            send_break: 0x5409,
            flush: 0x540b,
            flow: 0x540a,
            extended: false,
            actions_base: 0x0,
            actions_are_requests: false,
        },
    }
}

impl IoctlRequests {
    /// The request codes of `arch`.
    pub fn for_arch(arch: Arch) -> (r: IoctlRequests)
        ensures
            r == requests_of(arch),
    {
        match arch {
            Arch::X86 => IoctlRequests {
                get_attr: 0x802c542a,
                set_attr: 0x402c542b,
                get_winsize: 0x5413,
                set_winsize: 0x5414,
                get_pgrp: 0x540f,
                set_pgrp: 0x5410,
                get_sid: 0x5429,
                send_break: 0x5409,
                flush: 0x540b,
                flow: 0x540a,
                extended: true,
                actions_base: 0x0,
                actions_are_requests: false,
            },
            Arch::X86_64 => IoctlRequests {
                get_attr: 0x802c542a,
                set_attr: 0x402c542b,
                get_winsize: 0x5413,
                set_winsize: 0x5414,
                get_pgrp: 0x540f,
                set_pgrp: 0x5410,
                get_sid: 0x5429,
                send_break: 0x5409,
                flush: 0x540b,
                flow: 0x540a,
                extended: true,
                actions_base: 0x0,
                actions_are_requests: false,
            },
            Arch::X32 => IoctlRequests {
                get_attr: 0x802c542a,
                set_attr: 0x402c542b,
                get_winsize: 0x5413,
                set_winsize: 0x5414,
                get_pgrp: 0x540f,
                set_pgrp: 0x5410,
                get_sid: 0x5429,
                send_break: 0x5409,
                flush: 0x540b,
                flow: 0x540a,
                extended: true,
                actions_base: 0x0,
                actions_are_requests: false,
            },
            Arch::Riscv64 => IoctlRequests {
                get_attr: 0x802c542a,
                set_attr: 0x402c542b,
                get_winsize: 0x5413,
                set_winsize: 0x5414,
                get_pgrp: 0x540f,
                set_pgrp: 0x5410,
                get_sid: 0x5429,
                send_break: 0x5409,
                flush: 0x540b,
                flow: 0x540a,
                extended: true,
                actions_base: 0x0,
                actions_are_requests: false,
            },
            Arch::Aarch64 => IoctlRequests {
                get_attr: 0x802c542a,
                set_attr: 0x402c542b,
                get_winsize: 0x5413,
                set_winsize: 0x5414,
                get_pgrp: 0x540f,
                set_pgrp: 0x5410,
                get_sid: 0x5429,
                send_break: 0x5409,
                flush: 0x540b,
                flow: 0x540a,
                extended: true,
                actions_base: 0x0,
                actions_are_requests: false,
            },
            Arch::Arm => IoctlRequests {
                get_attr: 0x802c542a,
                set_attr: 0x402c542b,
                get_winsize: 0x5413,
                set_winsize: 0x5414,
                get_pgrp: 0x540f,
                set_pgrp: 0x5410,
                get_sid: 0x5429,
                send_break: 0x5409,
                flush: 0x540b,
                flow: 0x540a,
                extended: true,
                actions_base: 0x0,
                actions_are_requests: false,
            },
            Arch::Mips => IoctlRequests {
                get_attr: 0x4030542a,
                set_attr: 0x8030542b,
                get_winsize: 0x40087468,
                set_winsize: 0x80087467,
                get_pgrp: 0x40047477,
                set_pgrp: 0x80047476,
                get_sid: 0x7416,
                send_break: 0x5405,
                flush: 0x5407,
                flow: 0x5406,
                extended: true,
                actions_base: 0x540e,
                actions_are_requests: true,
            },
            Arch::Mips64 => IoctlRequests {
                get_attr: 0x4030542a,
                set_attr: 0x8030542b,
                get_winsize: 0x40087468,
                set_winsize: 0x80087467,
                get_pgrp: 0x40047477,
                set_pgrp: 0x80047476,
                get_sid: 0x7416,
                send_break: 0x5405,
                flush: 0x5407,
                flow: 0x5406,
                extended: true,
                actions_base: 0x540e,
                actions_are_requests: true,
            },
            Arch::Powerpc => IoctlRequests {
                get_attr: 0x402c7413,
                set_attr: 0x802c7414,
                get_winsize: 0x40087468,
                set_winsize: 0x80087467,
                get_pgrp: 0x40047477,
                set_pgrp: 0x80047476,
                get_sid: 0x5429,
                send_break: 0x2000741d,
                flush: 0x2000741f,
                flow: 0x2000741e,
                extended: false,
                actions_base: 0x0,
                actions_are_requests: false,
            },
            Arch::Powerpc64 => IoctlRequests {
                get_attr: 0x402c7413,
                set_attr: 0x802c7414,
                get_winsize: 0x40087468,
                set_winsize: 0x80087467,
                get_pgrp: 0x40047477,
                set_pgrp: 0x80047476,
                get_sid: 0x5429,
                send_break: 0x2000741d,
                flush: 0x2000741f,
                flow: 0x2000741e,
                extended: false,
                actions_base: 0x0,
                actions_are_requests: false,
            },
            Arch::S390x => IoctlRequests {
                get_attr: 0x5401,
                set_attr: 0x5402,
                get_winsize: 0x5413,
                set_winsize: 0x5414,
                get_pgrp: 0x540f,
                set_pgrp: 0x5410,
                get_sid: 0x5429,
                send_break: 0x5409,
                flush: 0x540b,
                flow: 0x540a,
                extended: false,
                actions_base: 0x0,
                actions_are_requests: false,
            },
            Arch::Loongarch64 => IoctlRequests {
                get_attr: 0x5401,
                set_attr: 0x5402,
                get_winsize: 0x5413,
                set_winsize: 0x5414,
                get_pgrp: 0x540f,
                set_pgrp: 0x5410,
                get_sid: 0x5429,
                send_break: 0x5409,
                flush: 0x540b,
                flow: 0x540a,
                extended: false,
                actions_base: 0x0,
                actions_are_requests: false,
            },
        }
    }
}

/// The value that `arch` gives the selector `actions`: its `TCSANOW`
/// plus the selector's ordinal.
pub open spec fn selector_value(arch: Arch, actions: OptionalActions) -> int {
    requests_of(arch).actions_base + actions.spec_raw()
}

/// The request that writes the control state on `arch`, applied as
/// `actions` says. Where the selectors' values are already requests (MIPS)
/// the selector's value is the request; elsewhere it is the base "set"
/// code plus the selector's ordinal.
pub fn set_attr_request(arch: Arch, actions: OptionalActions) -> (r: u32)
    ensures
        r == (if requests_of(arch).actions_are_requests {
            selector_value(arch, actions)
        } else {
            requests_of(arch).set_attr + actions.spec_raw()
        }),
{
    let requests = IoctlRequests::for_arch(arch);
    if requests.actions_are_requests {
        requests.actions_base + actions.raw()
    } else {
        requests.set_attr + actions.raw()
    }
}

/// The argument of the break request that sends a break of the kernel's
/// default length.
pub const SEND_BREAK_ARG: u32 = 0;

/// The argument of the break request that waits until pending output has
/// been sent, and sends no break.
pub const DRAIN_ARG: u32 = 1;

/// A process or process-group id; always positive.
#[derive(Clone, Copy, Debug, PartialEq, Eq, Hash, Structural)]
pub struct Pid {
    raw: i32,
}

impl Pid {
    #[verifier::type_invariant]
    spec fn positive(self) -> bool {
        self.raw > 0
    }

    /// The id.
    pub closed spec fn view(self) -> i32 {
        self.raw
    }

    /// Checks a raw id: `None` unless it is positive.
    pub fn from_raw(raw: i32) -> (r: Option<Pid>)
        ensures
            r is Some <==> raw > 0,
            r matches Some(p) ==> p@ == raw,
    {
        if raw > 0 {
            Some(Pid { raw })
        } else {
            None
        }
    }

    /// The id.
    pub fn as_raw(self) -> (r: i32)
        ensures
            r == self@,
            r > 0,
    {
        proof {
            use_type_invariant(self);
        }
        self.raw
    }
}

/// Whether a handle is a terminal, from the outcome of reading its window
/// size: any error, whichever the kernel gave, means it is not.
pub fn isatty(winsize_probe: &Result<Winsize, Errno>) -> (r: bool)
    ensures
        r == winsize_probe is Ok,
{
    winsize_probe.is_ok()
}

/// The mask of the file-type bits of a file mode.
pub const S_IFMT: u32 = 0o170000;

/// The file type of a character device.
pub const S_IFCHR: u32 = 0o020000;

/// What a status query reports of a file: its mode, device and inode.
#[derive(Clone, Copy, Debug, PartialEq, Eq, Hash, Structural)]
pub struct FileStat {
    /// The mode: file type and permission bits.
    pub mode: u32,
    /// The device that holds the file.
    pub dev: u64,
    /// The inode number.
    pub ino: u64,
}

/// Whether the file is a character device.
pub open spec fn is_char_device(stat: FileStat) -> bool {
    stat.mode & S_IFMT == S_IFCHR
}

/// The first check of device-path resolution: a handle that is not a
/// character device is no terminal, and fails with `ENOTTY`.
pub fn ttyname_check_device(fd_stat: &FileStat) -> (r: Result<(), Errno>)
    ensures
        r is Ok <==> is_char_device(*fd_stat),
        r matches Err(e) ==> e@ == Errno::NOTTY,
{
    if fd_stat.mode & S_IFMT != S_IFCHR {
        return Err(Errno::from_raw(Errno::NOTTY));
    }
    Ok(())
}

/// Ends the path of `len` bytes that was read into `buf` with a NUL byte.
/// A path that fills the buffer may have been cut short and leaves no room
/// for the terminator: it fails with `ERANGE`, and `buf` is unchanged.
pub fn ttyname_terminate(buf: &mut Vec<u8>, len: usize) -> (r: Result<usize, Errno>)
    requires
        len <= old(buf)@.len(),
    ensures
        r is Ok <==> len < old(buf)@.len(),
        r matches Ok(n) ==> n == len && final(buf)@ == old(buf)@.update(len as int, 0u8),
        r matches Err(e) ==> e@ == Errno::RANGE && final(buf)@ == old(buf)@,
{
    if len == buf.len() {
        return Err(Errno::from_raw(Errno::RANGE));
    }
    buf.set(len, 0u8);
    Ok(len)
}

/// The last check of device-path resolution: the path must still name the
/// file of the handle. A path whose device or inode differs from the
/// handle's names another file by now, and fails with `ENODEV`; else the
/// path's length `len` is the result.
pub fn ttyname_confirm(fd_stat: &FileStat, path_stat: &FileStat, len: usize) -> (r: Result<
    usize,
    Errno,
>)
    ensures
        r is Ok <==> (path_stat.dev == fd_stat.dev && path_stat.ino == fd_stat.ino),
        r matches Ok(n) ==> n == len,
        r matches Err(e) ==> e@ == Errno::NODEV,
{
    if path_stat.dev != fd_stat.dev || path_stat.ino != fd_stat.ino {
        return Err(Errno::from_raw(Errno::NODEV));
    }
    Ok(len)
}

} // verus!

