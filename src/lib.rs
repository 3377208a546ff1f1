//! Terminal control state: the mode flags, speeds and special codes of a
//! terminal line, and the pure decisions behind reading and writing them
//! through the kernel's device-control call.

pub mod flags;
pub mod speed;
pub mod termios;
pub mod errno;
pub mod modes;
pub mod driver;
