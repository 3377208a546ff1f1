use vstd::prelude::*;

verus! {

/// An error code as the kernel reports it.
#[derive(Clone, Copy, Debug, PartialEq, Eq, Hash, Structural)]
pub struct Errno {
    code: u16,
}

/// The largest error code the kernel returns, negated, from a call.
pub const MAX_ERRNO: u16 = 4095;

impl Errno {
    /// `ENODEV`: no such device.
    pub const NODEV: u16 = 19;

    /// `EINVAL`: invalid argument.
    pub const INVAL: u16 = 22;

    /// `ENOTTY`: inappropriate ioctl for device.
    pub const NOTTY: u16 = 25;

    /// `ERANGE`: result out of range.
    pub const RANGE: u16 = 34;

    /// The error code.
    pub closed spec fn view(self) -> u16 {
        self.code
    }

    /// Wraps a raw error code.
    pub fn from_raw(code: u16) -> (r: Errno)
        ensures
            r@ == code,
    {
        Errno { code }
    }

    /// The raw error code.
    pub fn raw(self) -> (r: u16)
        ensures
            r == self@,
    {
        self.code
    }
}

/// Whether a raw system-call return value reports an error: the kernel
/// returns `-e` for an error code `e` in `1..=4095`.
pub open spec fn is_error_return(ret: isize) -> bool {
    -(MAX_ERRNO as int) <= ret < 0
}

/// Reads a raw system-call return value: an error code for a value in
/// `-4095..=-1`, and the value itself, as unsigned, for any other.
pub fn check_return(ret: isize) -> (r: Result<usize, Errno>)
    ensures
        r is Err <==> is_error_return(ret),
        r matches Err(e) ==> e@ as int == -ret,
        r matches Ok(v) ==> v == ret as usize,
{
    if ret < 0 && ret >= -4095 {
        let code: u16 = (-ret) as u16;
        Err(Errno::from_raw(code))
    } else {
        Ok(ret as usize)
    }
}

/// Reads the raw return value of a query that only a terminal answers
/// (its control state or its window size). The kernel refuses such a query
/// on another device with `ENOTTY` or, on some versions, `EINVAL`: both
/// become `ENOTTY`. Any other error code, and any success, is read as by
/// `check_return`.
pub fn check_query_return(ret: isize) -> (r: Result<usize, Errno>)
    ensures
        r is Err <==> is_error_return(ret),
        r matches Err(e) ==> e@ == (if ret == -(Errno::NOTTY as int) || ret == -(Errno::INVAL as int) {
            Errno::NOTTY
        } else {
            (-ret) as u16
        }),
        r matches Ok(v) ==> v == ret as usize,
{
    match check_return(ret) {
        Ok(v) => Ok(v),
        Err(e) => {
            if e.raw() == Errno::NOTTY || e.raw() == Errno::INVAL {
                Err(Errno::from_raw(Errno::NOTTY))
            } else {
                Err(e)
            }
        },
    }
}

} // verus!
