//! Asynchronous interrupts: their cause codes and how the handler reacts to them.
use vstd::prelude::*;
use crate::config::SYS_CLOCK_HZ;

verus! {

/// The interrupts of the machine, by `mcause` interrupt code.
#[derive(Debug, Clone, Copy, PartialEq, Eq, Structural)]
pub enum Interrupt {
    /// Code 1.
    SupervisorSoftwareInterrupt,
    /// Code 3.
    MachineSoftwareInterrupt,
    /// Code 5.
    SupervisorTimerInterrupt,
    /// Code 7.
    MachineTimerInterrupt,
    /// Code 9.
    SupervisorExternalInterrupt,
    /// Code 11.
    MachineExternalInterrupt,
}

/// Whether `value` is the code of an interrupt.
pub open spec fn is_interrupt_code(value: u32) -> bool {
    value <= 11 && value % 2 == 1
}

impl Interrupt {
    /// The `mcause` interrupt code.
    pub open spec fn code(self) -> u32 {
        match self {
            Interrupt::SupervisorSoftwareInterrupt => 1,
            Interrupt::MachineSoftwareInterrupt => 3,
            Interrupt::SupervisorTimerInterrupt => 5,
            Interrupt::MachineTimerInterrupt => 7,
            Interrupt::SupervisorExternalInterrupt => 9,
            Interrupt::MachineExternalInterrupt => 11,
        }
    }

    /// The interrupt whose code is `value`.
    pub fn from_u32(value: u32) -> (r: Self)
        requires
            is_interrupt_code(value),
        ensures
            r.code() == value,
            value == 1 ==> r == Interrupt::SupervisorSoftwareInterrupt,
            value == 3 ==> r == Interrupt::MachineSoftwareInterrupt,
            value == 5 ==> r == Interrupt::SupervisorTimerInterrupt,
            value == 7 ==> r == Interrupt::MachineTimerInterrupt,
            value == 9 ==> r == Interrupt::SupervisorExternalInterrupt,
            value == 11 ==> r == Interrupt::MachineExternalInterrupt,
    {
        match value {
            1 => Interrupt::SupervisorSoftwareInterrupt,
            3 => Interrupt::MachineSoftwareInterrupt,
            5 => Interrupt::SupervisorTimerInterrupt,
            7 => Interrupt::MachineTimerInterrupt,
            9 => Interrupt::SupervisorExternalInterrupt,
            _ => Interrupt::MachineExternalInterrupt,
        }
    }
}

/// What the interrupt handler does.
#[derive(Debug, Clone, Copy, PartialEq, Eq, Structural)]
pub enum InterruptAction {
    /// Arm the machine timer `ticks` ticks from now.
    SetupTimer { ticks: u64 },
    /// Run the platform interrupt handler of the PLIC.
    PlatformIrq,
    /// Print the interrupt.
    Report,
}

/// How the interrupt handler reacts to `interrupt`: the machine timer interrupt
/// re-arms the timer one second ahead, the machine external interrupt goes to the
/// PLIC, and any other interrupt is printed.
pub fn interrupt_handler(interrupt: Interrupt) -> (r: InterruptAction)
    ensures
        interrupt == Interrupt::MachineTimerInterrupt ==> r == (InterruptAction::SetupTimer { ticks: SYS_CLOCK_HZ }),
        interrupt == Interrupt::MachineExternalInterrupt ==> r == InterruptAction::PlatformIrq,
        interrupt != Interrupt::MachineTimerInterrupt && interrupt != Interrupt::MachineExternalInterrupt
            ==> r == InterruptAction::Report,
{
    match interrupt {
        Interrupt::MachineTimerInterrupt => InterruptAction::SetupTimer { ticks: SYS_CLOCK_HZ },
        Interrupt::MachineExternalInterrupt => InterruptAction::PlatformIrq,
        _ => InterruptAction::Report,
    }
}

/// The codes are those of the RISC-V `mcause` table for interrupts, and distinct
/// interrupts have distinct codes.
pub proof fn lemma_interrupt_codes(a: Interrupt, b: Interrupt)
    ensures
        Interrupt::SupervisorSoftwareInterrupt.code() == 1,
        Interrupt::MachineSoftwareInterrupt.code() == 3,
        Interrupt::SupervisorTimerInterrupt.code() == 5,
        Interrupt::MachineTimerInterrupt.code() == 7,
        Interrupt::SupervisorExternalInterrupt.code() == 9,
        Interrupt::MachineExternalInterrupt.code() == 11,
        a != b ==> a.code() != b.code(),
{
}

} // verus!
