//! The LED of the board, on GPIO line 2 of the GPIO block at `GPIO_LED`.
use vstd::prelude::*;
use crate::mmio::RegAccess;

verus! {

/// Base address of the GPIO block of the LED.
pub const GPIO_LED: usize = 0x05021000;

/// GPIO line of the LED.
pub const GPIO_LED_NR: u32 = 2;

/// Offset of the data register of port A.
pub const GPIO_SWPORTA_DR: usize = 0x000;

/// Offset of the data direction register of port A.
pub const GPIO_SWPORTA_DDR: usize = 0x004;

/// The writes that switch the LED on (`enable`) or off: 4 (bit 2) to the data
/// direction register, then 4 or 0 to the data register.
pub open spec fn led_accesses(enable: bool) -> Seq<RegAccess> {
    seq![
        RegAccess::Write { addr: 0x05021004usize, value: 4u32 },
        RegAccess::Write { addr: 0x05021000usize, value: if enable { 4u32 } else { 0u32 } },
    ]
}

/// The writes that switch the LED on (`enable`) or off: line 2 becomes an output,
/// then the data register drives it high or low.
pub fn duo_led_control(enable: bool) -> (r: Vec<RegAccess>)
    ensures
        r@ == led_accesses(enable),
{
    let mut ops: Vec<RegAccess> = Vec::new();
    let ddr = GPIO_LED | GPIO_SWPORTA_DDR;
    let dr = GPIO_LED | GPIO_SWPORTA_DR;
    assert(0x05021000usize | 0x004usize == 0x05021004usize) by (bit_vector);
    assert(0x05021000usize | 0x000usize == 0x05021000usize) by (bit_vector);
    assert(1u32 << 2u32 == 4u32) by (bit_vector);
    assert(0u32 << 2u32 == 0u32) by (bit_vector);
    ops.push(RegAccess::Write { addr: ddr, value: 1u32 << GPIO_LED_NR });
    if enable {
        ops.push(RegAccess::Write { addr: dr, value: 1u32 << GPIO_LED_NR });
    } else {
        ops.push(RegAccess::Write { addr: dr, value: 0u32 << GPIO_LED_NR });
    }
    ops
}

/// Controlling the LED first makes line 2 an output, then drives exactly line 2 of the
/// data register high to switch the LED on, and low to switch it off.
pub proof fn lemma_led_line(enable: bool, word: u32)
    ensures
        led_accesses(enable).len() == 2,
        led_accesses(enable)[0].addr() == GPIO_LED + GPIO_SWPORTA_DDR,
        led_accesses(enable)[0].after(word) == 1u32 << GPIO_LED_NR,
        led_accesses(enable)[1].addr() == GPIO_LED + GPIO_SWPORTA_DR,
        (led_accesses(enable)[1].after(word) & (1u32 << GPIO_LED_NR) != 0) == enable,
        led_accesses(enable)[1].after(word) & !(1u32 << GPIO_LED_NR) == 0,
{
    assert(1u32 << 2u32 == 4u32) by (bit_vector);
    assert(4u32 & 4u32 != 0) by (bit_vector);
    assert(0u32 & 4u32 == 0) by (bit_vector);
    assert(4u32 & !4u32 == 0) by (bit_vector);
    assert(0u32 & !4u32 == 0) by (bit_vector);
}

} // verus!
