use vstd::prelude::*;

verus! {

/// Flags controlling how input bytes are interpreted (`c_iflag`).
///
/// A set of flag bits; `bits` is the raw value exchanged with the kernel.
#[derive(Clone, Copy, Debug, PartialEq, Eq, Hash, Structural)]
pub struct InputModes {
    bits: u32,
}

impl InputModes {
    /// The raw bit pattern of `IGNBRK`.
    pub const IGNBRK: u32 = 0x1;

    /// The raw bit pattern of `BRKINT`.
    pub const BRKINT: u32 = 0x2;

    /// The raw bit pattern of `IGNPAR`.
    pub const IGNPAR: u32 = 0x4;

    /// The raw bit pattern of `PARMRK`.
    pub const PARMRK: u32 = 0x8;

    /// The raw bit pattern of `INPCK`.
    pub const INPCK: u32 = 0x10;

    /// The raw bit pattern of `ISTRIP`.
    pub const ISTRIP: u32 = 0x20;

    /// The raw bit pattern of `INLCR`.
    pub const INLCR: u32 = 0x40;

    /// The raw bit pattern of `IGNCR`.
    pub const IGNCR: u32 = 0x80;

    /// The raw bit pattern of `ICRNL`.
    pub const ICRNL: u32 = 0x100;

    /// The raw bit pattern of `IXON`.
    pub const IXON: u32 = 0x400;

    /// The raw bit pattern of `IXANY`.
    pub const IXANY: u32 = 0x800;

    /// The raw bit pattern of `IXOFF`.
    pub const IXOFF: u32 = 0x1000;

    /// The raw bit pattern of `IMAXBEL`.
    pub const IMAXBEL: u32 = 0x2000;

    /// The raw bit pattern of `IUTF8`.
    pub const IUTF8: u32 = 0x4000;

    /// The union of every named flag of this set.
    pub const ALL_BITS: u32 = 0x7dff;

    /// The raw bits of this set.
    pub closed spec fn view(self) -> u32 {
        self.bits
    }

    /// The empty set.
    pub fn empty() -> (r: InputModes)
        ensures
            r@ == 0,
    {
        InputModes { bits: 0 }
    }

    /// The set of every named flag.
    pub fn all() -> (r: InputModes)
        ensures
            r@ == Self::ALL_BITS,
    {
        InputModes { bits: Self::ALL_BITS }
    }

    /// The raw value of this set.
    pub fn bits(&self) -> (r: u32)
        ensures
            r == self@,
    {
        self.bits
    }

    /// Builds a set from raw bits, refusing any bit that names no flag.
    pub fn from_bits(bits: u32) -> (r: Option<InputModes>)
        ensures
            r is Some <==> bits & !Self::ALL_BITS == 0,
            r matches Some(f) ==> f@ == bits,
    {
        if bits & !Self::ALL_BITS == 0 {
            Some(InputModes { bits })
        } else {
            None
        }
    }

    /// Builds a set from raw bits, dropping any bit that names no flag.
    pub fn from_bits_truncate(bits: u32) -> (r: InputModes)
        ensures
            r@ == bits & Self::ALL_BITS,
    {
        InputModes { bits: bits & Self::ALL_BITS }
    }

    /// Builds a set from raw bits as they stand. The caller vouches that
    /// `bits` came from the kernel or from a combination of named flags.
    pub fn from_bits_unchecked(bits: u32) -> (r: InputModes)
        ensures
            r@ == bits,
    {
        InputModes { bits }
    }

    /// Whether every flag of `other` is set in `self`.
    pub fn contains(&self, other: InputModes) -> (r: bool)
        ensures
            r == (self@ & other@ == other@),
    {
        self.bits & other.bits == other.bits
    }

    /// Whether `self` and `other` share a flag.
    pub fn intersects(&self, other: InputModes) -> (r: bool)
        ensures
            r == (self@ & other@ != 0),
    {
        self.bits & other.bits != 0
    }

    /// The flags set in either.
    pub fn union(self, other: InputModes) -> (r: InputModes)
        ensures
            r@ == self@ | other@,
    {
        InputModes { bits: self.bits | other.bits }
    }

    /// The flags set in both.
    pub fn intersection(self, other: InputModes) -> (r: InputModes)
        ensures
            r@ == self@ & other@,
    {
        InputModes { bits: self.bits & other.bits }
    }

    /// The flags of `self` that are not in `other`.
    pub fn difference(self, other: InputModes) -> (r: InputModes)
        ensures
            r@ == self@ & !other@,
    {
        InputModes { bits: self.bits & !other.bits }
    }
}

/// Flags controlling how output bytes are translated (`c_oflag`).
///
/// A set of flag bits; `bits` is the raw value exchanged with the kernel.
#[derive(Clone, Copy, Debug, PartialEq, Eq, Hash, Structural)]
pub struct OutputModes {
    bits: u32,
}

impl OutputModes {
    /// The raw bit pattern of `OPOST`.
    pub const OPOST: u32 = 0x1;

    /// The raw bit pattern of `OLCUC`.
    pub const OLCUC: u32 = 0x2;

    /// The raw bit pattern of `ONLCR`.
    pub const ONLCR: u32 = 0x4;

    /// The raw bit pattern of `OCRNL`.
    pub const OCRNL: u32 = 0x8;

    /// The raw bit pattern of `ONOCR`.
    pub const ONOCR: u32 = 0x10;

    /// The raw bit pattern of `ONLRET`.
    pub const ONLRET: u32 = 0x20;

    /// The raw bit pattern of `OFILL`.
    pub const OFILL: u32 = 0x40;

    /// The raw bit pattern of `OFDEL`.
    pub const OFDEL: u32 = 0x80;

    /// The raw bit pattern of `NLDLY`.
    pub const NLDLY: u32 = 0x100;

    /// The raw bit pattern of `NL0`.
    pub const NL0: u32 = 0x0;

    /// The raw bit pattern of `NL1`.
    pub const NL1: u32 = 0x100;

    /// The raw bit pattern of `CRDLY`.
    pub const CRDLY: u32 = 0x600;

    /// The raw bit pattern of `CR0`.
    pub const CR0: u32 = 0x0;

    /// The raw bit pattern of `CR1`.
    pub const CR1: u32 = 0x200;

    /// The raw bit pattern of `CR2`.
    pub const CR2: u32 = 0x400;

    /// The raw bit pattern of `CR3`.
    pub const CR3: u32 = 0x600;

    /// The raw bit pattern of `TABDLY`.
    pub const TABDLY: u32 = 0x1800;

    /// The raw bit pattern of `TAB0`.
    pub const TAB0: u32 = 0x0;

    /// The raw bit pattern of `TAB1`.
    pub const TAB1: u32 = 0x800;

    /// The raw bit pattern of `TAB2`.
    pub const TAB2: u32 = 0x1000;

    /// The raw bit pattern of `TAB3`.
    pub const TAB3: u32 = 0x1800;

    /// The raw bit pattern of `XTABS`.
    pub const XTABS: u32 = 0x1800;

    /// The raw bit pattern of `BSDLY`.
    pub const BSDLY: u32 = 0x2000;

    /// The raw bit pattern of `BS0`.
    pub const BS0: u32 = 0x0;

    /// The raw bit pattern of `BS1`.
    pub const BS1: u32 = 0x2000;

    /// The raw bit pattern of `FFDLY`.
    pub const FFDLY: u32 = 0x8000;

    /// The raw bit pattern of `FF0`.
    pub const FF0: u32 = 0x0;

    /// The raw bit pattern of `FF1`.
    pub const FF1: u32 = 0x8000;

    /// The raw bit pattern of `VTDLY`.
    pub const VTDLY: u32 = 0x4000;

    /// The raw bit pattern of `VT0`.
    pub const VT0: u32 = 0x0;

    /// The raw bit pattern of `VT1`.
    pub const VT1: u32 = 0x4000;

    /// The union of every named flag of this set.
    pub const ALL_BITS: u32 = 0xffff;

    /// The raw bits of this set.
    pub closed spec fn view(self) -> u32 {
        self.bits
    }

    /// The empty set.
    pub fn empty() -> (r: OutputModes)
        ensures
            r@ == 0,
    {
        OutputModes { bits: 0 }
    }

    /// The set of every named flag.
    pub fn all() -> (r: OutputModes)
        ensures
            r@ == Self::ALL_BITS,
    {
        OutputModes { bits: Self::ALL_BITS }
    }

    /// The raw value of this set.
    pub fn bits(&self) -> (r: u32)
        ensures
            r == self@,
    {
        self.bits
    }

    /// Builds a set from raw bits, refusing any bit that names no flag.
    pub fn from_bits(bits: u32) -> (r: Option<OutputModes>)
        ensures
            r is Some <==> bits & !Self::ALL_BITS == 0,
            r matches Some(f) ==> f@ == bits,
    {
        if bits & !Self::ALL_BITS == 0 {
            Some(OutputModes { bits })
        } else {
            None
        }
    }

    /// Builds a set from raw bits, dropping any bit that names no flag.
    pub fn from_bits_truncate(bits: u32) -> (r: OutputModes)
        ensures
            r@ == bits & Self::ALL_BITS,
    {
        OutputModes { bits: bits & Self::ALL_BITS }
    }

    /// Builds a set from raw bits as they stand. The caller vouches that
    /// `bits` came from the kernel or from a combination of named flags.
    pub fn from_bits_unchecked(bits: u32) -> (r: OutputModes)
        ensures
            r@ == bits,
    {
        OutputModes { bits }
    }

    /// Whether every flag of `other` is set in `self`.
    pub fn contains(&self, other: OutputModes) -> (r: bool)
        ensures
            r == (self@ & other@ == other@),
    {
        self.bits & other.bits == other.bits
    }

    /// Whether `self` and `other` share a flag.
    pub fn intersects(&self, other: OutputModes) -> (r: bool)
        ensures
            r == (self@ & other@ != 0),
    {
        self.bits & other.bits != 0
    }

    /// The flags set in either.
    pub fn union(self, other: OutputModes) -> (r: OutputModes)
        ensures
            r@ == self@ | other@,
    {
        OutputModes { bits: self.bits | other.bits }
    }

    /// The flags set in both.
    pub fn intersection(self, other: OutputModes) -> (r: OutputModes)
        ensures
            r@ == self@ & other@,
    {
        OutputModes { bits: self.bits & other.bits }
    }

    /// The flags of `self` that are not in `other`.
    pub fn difference(self, other: OutputModes) -> (r: OutputModes)
        ensures
            r@ == self@ & !other@,
    {
        OutputModes { bits: self.bits & !other.bits }
    }
}

/// Low-level line configuration: framing, parity and the baud fields (`c_cflag`).
///
/// A set of flag bits; `bits` is the raw value exchanged with the kernel.
#[derive(Clone, Copy, Debug, PartialEq, Eq, Hash, Structural)]
pub struct ControlModes {
    bits: u32,
}

impl ControlModes {
    /// The raw bit pattern of `CSIZE`.
    pub const CSIZE: u32 = 0x30;

    /// The raw bit pattern of `CS5`.
    pub const CS5: u32 = 0x0;

    /// The raw bit pattern of `CS6`.
    pub const CS6: u32 = 0x10;

    /// The raw bit pattern of `CS7`.
    pub const CS7: u32 = 0x20;

    /// The raw bit pattern of `CS8`.
    pub const CS8: u32 = 0x30;

    /// The raw bit pattern of `CSTOPB`.
    pub const CSTOPB: u32 = 0x40;

    /// The raw bit pattern of `CREAD`.
    pub const CREAD: u32 = 0x80;

    /// The raw bit pattern of `PARENB`.
    pub const PARENB: u32 = 0x100;

    /// The raw bit pattern of `PARODD`.
    pub const PARODD: u32 = 0x200;

    /// The raw bit pattern of `HUPCL`.
    pub const HUPCL: u32 = 0x400;

    /// The raw bit pattern of `CLOCAL`.
    pub const CLOCAL: u32 = 0x800;

    /// The raw bit pattern of `CRTSCTS`.
    pub const CRTSCTS: u32 = 0x80000000;

    /// The raw bit pattern of `CBAUD`.
    pub const CBAUD: u32 = 0x100f;

    /// The raw bit pattern of `CBAUDEX`.
    pub const CBAUDEX: u32 = 0x1000;

    /// The raw bit pattern of `CIBAUD`.
    pub const CIBAUD: u32 = 0x100f0000;

    /// The raw bit pattern of `CMSPAR`.
    pub const CMSPAR: u32 = 0x40000000;

    /// The union of every named flag of this set.
    pub const ALL_BITS: u32 = 0xd00f1fff;

    /// The raw bits of this set.
    pub closed spec fn view(self) -> u32 {
        self.bits
    }

    /// The empty set.
    pub fn empty() -> (r: ControlModes)
        ensures
            r@ == 0,
    {
        ControlModes { bits: 0 }
    }

    /// The set of every named flag.
    pub fn all() -> (r: ControlModes)
        ensures
            r@ == Self::ALL_BITS,
    {
        ControlModes { bits: Self::ALL_BITS }
    }

    /// The raw value of this set.
    pub fn bits(&self) -> (r: u32)
        ensures
            r == self@,
    {
        self.bits
    }

    /// Builds a set from raw bits, refusing any bit that names no flag.
    pub fn from_bits(bits: u32) -> (r: Option<ControlModes>)
        ensures
            r is Some <==> bits & !Self::ALL_BITS == 0,
            r matches Some(f) ==> f@ == bits,
    {
        if bits & !Self::ALL_BITS == 0 {
            Some(ControlModes { bits })
        } else {
            None
        }
    }

    /// Builds a set from raw bits, dropping any bit that names no flag.
    pub fn from_bits_truncate(bits: u32) -> (r: ControlModes)
        ensures
            r@ == bits & Self::ALL_BITS,
    {
        ControlModes { bits: bits & Self::ALL_BITS }
    }

    /// Builds a set from raw bits as they stand. The caller vouches that
    /// `bits` came from the kernel or from a combination of named flags.
    pub fn from_bits_unchecked(bits: u32) -> (r: ControlModes)
        ensures
            r@ == bits,
    {
        ControlModes { bits }
    }

    /// Whether every flag of `other` is set in `self`.
    pub fn contains(&self, other: ControlModes) -> (r: bool)
        ensures
            r == (self@ & other@ == other@),
    {
        self.bits & other.bits == other.bits
    }

    /// Whether `self` and `other` share a flag.
    pub fn intersects(&self, other: ControlModes) -> (r: bool)
        ensures
            r == (self@ & other@ != 0),
    {
        self.bits & other.bits != 0
    }

    /// The flags set in either.
    pub fn union(self, other: ControlModes) -> (r: ControlModes)
        ensures
            r@ == self@ | other@,
    {
        ControlModes { bits: self.bits | other.bits }
    }

    /// The flags set in both.
    pub fn intersection(self, other: ControlModes) -> (r: ControlModes)
        ensures
            r@ == self@ & other@,
    {
        ControlModes { bits: self.bits & other.bits }
    }

    /// The flags of `self` that are not in `other`.
    pub fn difference(self, other: ControlModes) -> (r: ControlModes)
        ensures
            r@ == self@ & !other@,
    {
        ControlModes { bits: self.bits & !other.bits }
    }
}

/// Line-discipline behaviour: canonical mode, echo, signals (`c_lflag`).
///
/// A set of flag bits; `bits` is the raw value exchanged with the kernel.
#[derive(Clone, Copy, Debug, PartialEq, Eq, Hash, Structural)]
pub struct LocalModes {
    bits: u32,
}

impl LocalModes {
    /// The raw bit pattern of `ECHOCTL`.
    pub const ECHOCTL: u32 = 0x200;

    /// The raw bit pattern of `ECHOPRT`.
    pub const ECHOPRT: u32 = 0x400;

    /// The raw bit pattern of `ECHOKE`.
    pub const ECHOKE: u32 = 0x800;

    /// The raw bit pattern of `FLUSHO`.
    pub const FLUSHO: u32 = 0x1000;

    /// The raw bit pattern of `PENDIN`.
    pub const PENDIN: u32 = 0x4000;

    /// The raw bit pattern of `EXTPROC`.
    pub const EXTPROC: u32 = 0x10000;

    /// The raw bit pattern of `ISIG`.
    pub const ISIG: u32 = 0x1;

    /// The raw bit pattern of `ICANON`.
    pub const ICANON: u32 = 0x2;

    /// The raw bit pattern of `ECHO`.
    pub const ECHO: u32 = 0x8;

    /// The raw bit pattern of `ECHOE`.
    pub const ECHOE: u32 = 0x10;

    /// The raw bit pattern of `ECHOK`.
    pub const ECHOK: u32 = 0x20;

    /// The raw bit pattern of `ECHONL`.
    pub const ECHONL: u32 = 0x40;

    /// The raw bit pattern of `NOFLSH`.
    pub const NOFLSH: u32 = 0x80;

    /// The raw bit pattern of `TOSTOP`.
    pub const TOSTOP: u32 = 0x100;

    /// The raw bit pattern of `IEXTEN`.
    pub const IEXTEN: u32 = 0x8000;

    /// The union of every named flag of this set.
    pub const ALL_BITS: u32 = 0x1dffb;

    /// The raw bits of this set.
    pub closed spec fn view(self) -> u32 {
        self.bits
    }

    /// The empty set.
    pub fn empty() -> (r: LocalModes)
        ensures
            r@ == 0,
    {
        LocalModes { bits: 0 }
    }

    /// The set of every named flag.
    pub fn all() -> (r: LocalModes)
        ensures
            r@ == Self::ALL_BITS,
    {
        LocalModes { bits: Self::ALL_BITS }
    }

    /// The raw value of this set.
    pub fn bits(&self) -> (r: u32)
        ensures
            r == self@,
    {
        self.bits
    }

    /// Builds a set from raw bits, refusing any bit that names no flag.
    pub fn from_bits(bits: u32) -> (r: Option<LocalModes>)
        ensures
            r is Some <==> bits & !Self::ALL_BITS == 0,
            r matches Some(f) ==> f@ == bits,
    {
        if bits & !Self::ALL_BITS == 0 {
            Some(LocalModes { bits })
        } else {
            None
        }
    }

    /// Builds a set from raw bits, dropping any bit that names no flag.
    pub fn from_bits_truncate(bits: u32) -> (r: LocalModes)
        ensures
            r@ == bits & Self::ALL_BITS,
    {
        LocalModes { bits: bits & Self::ALL_BITS }
    }

    /// Builds a set from raw bits as they stand. The caller vouches that
    /// `bits` came from the kernel or from a combination of named flags.
    pub fn from_bits_unchecked(bits: u32) -> (r: LocalModes)
        ensures
            r@ == bits,
    {
        LocalModes { bits }
    }

    /// Whether every flag of `other` is set in `self`.
    pub fn contains(&self, other: LocalModes) -> (r: bool)
        ensures
            r == (self@ & other@ == other@),
    {
        self.bits & other.bits == other.bits
    }

    /// Whether `self` and `other` share a flag.
    pub fn intersects(&self, other: LocalModes) -> (r: bool)
        ensures
            r == (self@ & other@ != 0),
    {
        self.bits & other.bits != 0
    }

    /// The flags set in either.
    pub fn union(self, other: LocalModes) -> (r: LocalModes)
        ensures
            r@ == self@ | other@,
    {
        LocalModes { bits: self.bits | other.bits }
    }

    /// The flags set in both.
    pub fn intersection(self, other: LocalModes) -> (r: LocalModes)
        ensures
            r@ == self@ & other@,
    {
        LocalModes { bits: self.bits & other.bits }
    }

    /// The flags of `self` that are not in `other`.
    pub fn difference(self, other: LocalModes) -> (r: LocalModes)
        ensures
            r@ == self@ & !other@,
    {
        LocalModes { bits: self.bits & !other.bits }
    }
}

} // verus!
