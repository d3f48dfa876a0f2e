//! The pin multiplexer.
use vstd::prelude::*;
use crate::mmio::RegAccess;

verus! {

/// Offset of the function selector of pin GPIO 0.
pub const FMUX_GPIO_0: usize = 0x4c;

/// Offset of the function selector of pin GPIO 1.
pub const FMUX_GPIO_1: usize = 0x50;

/// Base address of the pin multiplexer.
pub const PINMUX_BASE: usize = 0x03001000;

/// The write that selects function `set` in the selector register at `addr`.
pub fn pinmux(addr: usize, set: u32) -> (r: RegAccess)
    ensures
        r == (RegAccess::Write { addr, value: set }),
{
    RegAccess::Write { addr, value: set }
}

/// The writes that route the second UART to its pins: function 1 on pins GPIO 0
/// and GPIO 1.
pub fn fix_uart1() -> (r: Vec<RegAccess>)
    ensures
        r@ == seq![
            RegAccess::Write { addr: 0x0300104cusize, value: 1u32 },
            RegAccess::Write { addr: 0x03001050usize, value: 1u32 },
        ],
{
    let mut ops: Vec<RegAccess> = Vec::new();
    ops.push(pinmux(PINMUX_BASE + FMUX_GPIO_0, 1));
    ops.push(pinmux(PINMUX_BASE + FMUX_GPIO_1, 1));
    ops
}

} // verus!
