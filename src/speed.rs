use vstd::prelude::*;

verus! {

/// A baud-rate code as the kernel stores it (`speed_t`).
///
/// The named codes are the raw values below; any other value is a code the
/// numeric lookup does not recognise.
#[derive(Clone, Copy, Debug, PartialEq, Eq, Hash, Structural)]
pub struct Speed {
    code: u32,
}

impl Speed {
    /// The raw code of `B0`.
    pub const B0: u32 = 0o0;

    /// The raw code of `B50`.
    pub const B50: u32 = 0o1;

    /// The raw code of `B75`.
    pub const B75: u32 = 0o2;

    /// The raw code of `B110`.
    pub const B110: u32 = 0o3;

    /// The raw code of `B134`.
    pub const B134: u32 = 0o4;

    /// The raw code of `B150`.
    pub const B150: u32 = 0o5;

    /// The raw code of `B200`.
    pub const B200: u32 = 0o6;

    /// The raw code of `B300`.
    pub const B300: u32 = 0o7;

    /// The raw code of `B600`.
    pub const B600: u32 = 0o10;

    /// The raw code of `B1200`.
    pub const B1200: u32 = 0o11;

    /// The raw code of `B1800`.
    pub const B1800: u32 = 0o12;

    /// The raw code of `B2400`.
    pub const B2400: u32 = 0o13;

    /// The raw code of `B4800`.
    pub const B4800: u32 = 0o14;

    /// The raw code of `B9600`.
    pub const B9600: u32 = 0o15;

    /// The raw code of `B19200`.
    pub const B19200: u32 = 0o16;

    /// The raw code of `B38400`.
    pub const B38400: u32 = 0o17;

    /// The raw code of `B57600`.
    pub const B57600: u32 = 0o10001;

    /// The raw code of `B115200`.
    pub const B115200: u32 = 0o10002;

    /// The raw code of `B230400`.
    pub const B230400: u32 = 0o10003;

    /// The raw code of `B460800`.
    pub const B460800: u32 = 0o10004;

    /// The raw code of `B500000`.
    pub const B500000: u32 = 0o10005;

    /// The raw code of `B576000`.
    pub const B576000: u32 = 0o10006;

    /// The raw code of `B921600`.
    pub const B921600: u32 = 0o10007;

    /// The raw code of `B1000000`.
    pub const B1000000: u32 = 0o10010;

    /// The raw code of `B1152000`.
    pub const B1152000: u32 = 0o10011;

    /// The raw code of `B1500000`.
    pub const B1500000: u32 = 0o10012;

    /// The raw code of `B2000000`.
    pub const B2000000: u32 = 0o10013;

    /// The raw code of `B2500000`.
    pub const B2500000: u32 = 0o10014;

    /// The raw code of `B3000000`.
    pub const B3000000: u32 = 0o10015;

    /// The raw code of `B3500000`.
    pub const B3500000: u32 = 0o10016;

    /// The raw code of `B4000000`.
    pub const B4000000: u32 = 0o10017;

    /// The raw code of `BOTHER`: the rate is given out of band, in the
    /// speed fields of the extended record.
    pub const BOTHER: u32 = 0o10000;

    /// The raw code of `EXTA`, an alias of `B19200`.
    pub const EXTA: u32 = 0o16;

    /// The raw code of `EXTB`, an alias of `B38400`.
    pub const EXTB: u32 = 0o17;

    /// The raw code.
    pub closed spec fn view(self) -> u32 {
        self.code
    }

    /// Wraps a raw code.
    pub fn from_raw(code: u32) -> (r: Speed)
        ensures
            r@ == code,
    {
        Speed { code }
    }

    /// The raw code.
    pub fn raw(self) -> (r: u32)
        ensures
            r == self@,
    {
        self.code
    }
}

/// The rate in bits per second that a raw speed code stands for, or `None`
/// for a code outside the fixed table (such as `BOTHER`).
pub open spec fn speed_rate(code: u32) -> Option<u32> {
    if code == Speed::B0 {
        Some(0u32)
    } else if code == Speed::B50 {
        Some(50u32)
    } else if code == Speed::B75 {
        Some(75u32)
    } else if code == Speed::B110 {
        Some(110u32)
    } else if code == Speed::B134 {
        Some(134u32)
    } else if code == Speed::B150 {
        Some(150u32)
    } else if code == Speed::B200 {
        Some(200u32)
    } else if code == Speed::B300 {
        Some(300u32)
    } else if code == Speed::B600 {
        Some(600u32)
    } else if code == Speed::B1200 {
        Some(1200u32)
    } else if code == Speed::B1800 {
        Some(1800u32)
    } else if code == Speed::B2400 {
        Some(2400u32)
    } else if code == Speed::B4800 {
        Some(4800u32)
    } else if code == Speed::B9600 {
        Some(9600u32)
    } else if code == Speed::B19200 {
        Some(19200u32)
    } else if code == Speed::B38400 {
        Some(38400u32)
    } else if code == Speed::B57600 {
        Some(57600u32)
    } else if code == Speed::B115200 {
        Some(115200u32)
    } else if code == Speed::B230400 {
        Some(230400u32)
    } else if code == Speed::B460800 {
        Some(460800u32)
    } else if code == Speed::B500000 {
        Some(500000u32)
    } else if code == Speed::B576000 {
        Some(576000u32)
    } else if code == Speed::B921600 {
        Some(921600u32)
    } else if code == Speed::B1000000 {
        Some(1000000u32)
    } else if code == Speed::B1152000 {
        Some(1152000u32)
    } else if code == Speed::B1500000 {
        Some(1500000u32)
    } else if code == Speed::B2000000 {
        Some(2000000u32)
    } else if code == Speed::B2500000 {
        Some(2500000u32)
    } else if code == Speed::B3000000 {
        Some(3000000u32)
    } else if code == Speed::B3500000 {
        Some(3500000u32)
    } else if code == Speed::B4000000 {
        Some(4000000u32)
    } else {
        None
    }
}

/// Translates a speed code to its rate in bits per second.
pub fn speed_value(speed: Speed) -> (r: Option<u32>)
    ensures
        r == speed_rate(speed@),
{
    match speed.code {
        0o0 => Some(0),
        0o1 => Some(50),
        0o2 => Some(75),
        0o3 => Some(110),
        0o4 => Some(134),
        0o5 => Some(150),
        0o6 => Some(200),
        0o7 => Some(300),
        0o10 => Some(600),
        0o11 => Some(1200),
        0o12 => Some(1800),
        0o13 => Some(2400),
        0o14 => Some(4800),
        0o15 => Some(9600),
        0o16 => Some(19200),
        0o17 => Some(38400),
        0o10001 => Some(57600),
        0o10002 => Some(115_200),
        0o10003 => Some(230_400),
        0o10004 => Some(460_800),
        0o10005 => Some(500_000),
        0o10006 => Some(576_000),
        0o10007 => Some(921_600),
        0o10010 => Some(1_000_000),
        0o10011 => Some(1_152_000),
        0o10012 => Some(1_500_000),
        0o10013 => Some(2_000_000),
        0o10014 => Some(2_500_000),
        0o10015 => Some(3_000_000),
        0o10016 => Some(3_500_000),
        0o10017 => Some(4_000_000),
        _ => None,
    }
}

} // verus!
