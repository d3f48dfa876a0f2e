//! The command that the other core leaves in a mailbox slot.
use vstd::prelude::*;
use crate::device::led::duo_led_control;
use crate::mmio::RegAccess;

verus! {

/// Validity flags of a command, one per core.
#[derive(Debug, Clone, Copy, PartialEq, Eq, Structural)]
pub struct ValidT {
    pub linux_valid: u8,
    pub rtos_valid: u8,
}

/// A command: the addressed IP block, the command, its validity and its parameter.
#[derive(Debug, Clone, Copy, PartialEq, Eq, Structural)]
pub struct Opration {
    pub ip_id: u8,
    pub cmd_id: u8,
    pub valid: ValidT,
    pub param: i32,
}

impl Default for ValidT {
    fn default() -> (r: Self)
        ensures
            r == (ValidT { linux_valid: 0, rtos_valid: 0 }),
    {
        ValidT { linux_valid: 0, rtos_valid: 0 }
    }
}

impl Default for Opration {
    fn default() -> (r: Self)
        ensures
            r == (Opration {
                ip_id: 0,
                cmd_id: 0,
                valid: ValidT { linux_valid: 0, rtos_valid: 0 },
                param: 0,
            }),
    {
        Opration { ip_id: 0, cmd_id: 0, valid: ValidT::default(), param: 0 }
    }
}

/// The command that drives the LED.
pub const LED_CMD_ID: u8 = 0x93;

/// The parameter of the LED command that switches the LED on.
pub const LED_ON_PARAM: i32 = 2;

/// The register accesses that the LED task makes for command `cmd`: none when it is
/// not the LED command; otherwise those of `duo_led_control`, switching the LED on for
/// parameter 2 and off for any other parameter.
pub fn led_task(cmd: Opration) -> (r: Vec<RegAccess>)
    ensures
        cmd.cmd_id != LED_CMD_ID ==> r@.len() == 0,
        cmd.cmd_id == LED_CMD_ID ==> r@ == crate::device::led::led_accesses(cmd.param == LED_ON_PARAM),
{
    if cmd.cmd_id == LED_CMD_ID {
        if cmd.param == LED_ON_PARAM {
            duo_led_control(true)
        } else {
            duo_led_control(false)
        }
    } else {
        Vec::new()
    }
}

} // verus!
