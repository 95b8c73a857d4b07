use vstd::prelude::*;

use crate::error::SysError;

verus! {

/// Device path the touch controller is registered under.
pub const GT911_DEV_PATH: &'static str = "/dev/input0";

/// I2C address of the touch controller.
pub const GT911_ADDR: u8 = 0x5D;

/// I2C bus the touch controller sits on.
pub const GT911_I2C: i32 = 1;

/// What registering the controller gives from whether the I2C bus came
/// up: without the bus the registration fails before the driver is asked.
pub fn bus_status(bus_is_null: bool) -> (res: Result<(), SysError>)
    ensures
        bus_is_null ==> res == Err::<(), SysError>(SysError::I2cUnavailable),
        !bus_is_null ==> res is Ok,
{
    if bus_is_null {
        return Err(SysError::I2cUnavailable);
    }
    Ok(())
}

/// What registering the controller gives from the status the driver's
/// registration returned; on a failure the bus is to be released again.
pub fn registration_status(err: i32) -> (res: Result<(), SysError>)
    ensures
        err < 0 ==> res == Err::<(), SysError>(SysError::Gt911RegisterFailed),
        err >= 0 ==> res is Ok,
{
    if err < 0 {
        return Err(SysError::Gt911RegisterFailed);
    }
    Ok(())
}

/// The line the board logs when the controller's interrupt is switched.
pub fn irq_enable_message(enable: bool) -> (m: &'static str)
    ensures
        enable ==> m@ == "GT911 Enable!\n"@,
        !enable ==> m@ == "GT911 Disable!\n"@,
{
    if enable {
        "GT911 Enable!\n"
    } else {
        "GT911 Disable!\n"
    }
}

/// The line the board logs when the controller's power is switched.
pub fn set_power_message(on: bool) -> (m: &'static str)
    ensures
        on ==> m@ == "GT911 On!\n"@,
        !on ==> m@ == "GT911 Off!\n"@,
{
    if on {
        "GT911 On!\n"
    } else {
        "GT911 Off!\n"
    }
}

} // verus!
