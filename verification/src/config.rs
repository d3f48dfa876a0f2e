use vstd::prelude::*;

verus! {

/// Base address of the first UART.
pub const UART_BASE: usize = 0x04140000;

/// Base address of the second UART.
pub const UART_BASE1: usize = 0x04150000;

/// Frequency of the `time` counter, in ticks per second.
pub const SYS_CLOCK_HZ: u64 = 25000000;

/// Baud rate of the console UART.
pub const UART_BAUD_RATE: u64 = 115200;

/// Base address of the mailbox register block.
pub const MAILBOX_REG_BASE: usize = 0x01900000;

/// Address of the mailbox message buffer.
pub const MAILBOX_REG_BUFF: usize = MAILBOX_REG_BASE + 0x0400;

/// Address of the hardware spinlock block.
pub const SPINLOCK_REG_BASE: usize = MAILBOX_REG_BASE + 0x00c0;

/// Base address of the core-local interruptor.
pub const CLINT_BASE: usize = 0x74000000;

/// Base address of the platform-level interrupt controller.
pub const PLIC_BASE: usize = 0x70000000;

/// Size of the memory given to this core: 2 MiB.
pub const MEM_SIZE: usize = 0x200000;

/// Start of the memory given to this core.
pub const MEM_START: usize = 0x8fe00000;

} // verus!
