use vstd::prelude::*;

verus! {

/// Failures of the operating system's calls, each with the status code
/// that the call returned where the caller reports it.
#[derive(Debug, Clone, Copy, PartialEq, Eq, Structural)]
pub enum SysError {
    /// `open` returned a negative descriptor.
    OpenFailed,
    /// `close` returned the given negative status.
    CloseFailed(i32),
    /// `ioctl` returned the given negative status.
    IoctlFailed(i32),
    /// `read` returned the given negative status.
    ReadFailed(isize),
    /// `clock_gettime` failed.
    ClockGetFailed,
    /// `clock_settime` failed.
    ClockSetFailed,
    /// The I2C bus of the touch controller could not be initialized.
    I2cUnavailable,
    /// The touch controller driver could not be registered.
    Gt911RegisterFailed,
}

} // verus!
