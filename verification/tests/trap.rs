use duo_firmware::arch::exception::{code_dump_addrs, exception_handler, Exception};
use duo_firmware::arch::interrupt::{interrupt_handler, Interrupt, InterruptAction};
use duo_firmware::arch::mm::init_heap;
use duo_firmware::arch::{setup, trap_setup};
use duo_firmware::csr::{Csr, CsrOp};
use duo_firmware::mmio::RegAccess;

#[test]
fn exception_from_code() {
    assert_eq!(Exception::from_u32(0), Exception::InstructionAddressMisaligned);
    assert_eq!(Exception::from_u32(3), Exception::BREAKPOINT);
    assert_eq!(Exception::from_u32(9), Exception::EnvironmentCallFromSMode);
    assert_eq!(Exception::from_u32(11), Exception::EnvironmentCallFromMMode);
    assert_eq!(Exception::from_u32(12), Exception::InstructionPageFault);
    assert_eq!(Exception::from_u32(15), Exception::StoreAmoPageFault);
}

#[test]
fn exception_messages() {
    assert_eq!(exception_handler(Exception::BREAKPOINT), "Breakpoint.");
    assert_eq!(exception_handler(Exception::IllegalInstruction), "Illegal instruction.");
    assert_eq!(
        exception_handler(Exception::StoreAmoAddressMisaligned),
        " Store/AMO address misaligned."
    );
    assert_eq!(
        exception_handler(Exception::EnvironmentCallFromMMode),
        "Environment call from M-mode."
    );
    assert_eq!(exception_handler(Exception::LoadPageFault), "Load page fault.");
}

#[test]
fn interrupt_from_code() {
    assert_eq!(Interrupt::from_u32(1), Interrupt::SupervisorSoftwareInterrupt);
    assert_eq!(Interrupt::from_u32(7), Interrupt::MachineTimerInterrupt);
    assert_eq!(Interrupt::from_u32(11), Interrupt::MachineExternalInterrupt);
}

#[test]
fn interrupt_actions() {
    assert_eq!(
        interrupt_handler(Interrupt::MachineTimerInterrupt),
        InterruptAction::SetupTimer { ticks: 25_000_000 }
    );
    assert_eq!(interrupt_handler(Interrupt::MachineExternalInterrupt), InterruptAction::PlatformIrq);
    assert_eq!(interrupt_handler(Interrupt::SupervisorTimerInterrupt), InterruptAction::Report);
    assert_eq!(interrupt_handler(Interrupt::MachineSoftwareInterrupt), InterruptAction::Report);
}

#[test]
fn code_dump_reads_four_bytes() {
    assert_eq!(code_dump_addrs(0), Vec::<usize>::new());
    assert_eq!(code_dump_addrs(3), Vec::<usize>::new());
    assert_eq!(code_dump_addrs(4), vec![4, 5, 6, 7]);
    assert_eq!(code_dump_addrs(0x8000_0100), vec![0x8000_0100, 0x8000_0101, 0x8000_0102, 0x8000_0103]);
}

#[test]
fn heap_region() {
    assert_eq!(init_heap(0x1000), (0x1000, 0x1f_f000));
    assert_eq!(init_heap(0x20_0000), (0x20_0000, 0));
}

#[test]
fn setup_csr_sequence() {
    assert_eq!(
        setup(0x8fe0_0100, 0x8fe1_0000, 0, 0x1000).csr,
        vec![
            CsrOp::Write { csr: Csr::Mscratch, value: 0 },
            CsrOp::Write { csr: Csr::Mie, value: 0 },
            CsrOp::Write { csr: Csr::Mtvec, value: 0x8fe0_0100 },
            CsrOp::SetBits { csr: Csr::Mstatus, mask: 1 << 13 },
            CsrOp::SetBits { csr: Csr::Mie, mask: 0x880 },
            CsrOp::Write { csr: Csr::Mscratch, value: 0x8fe1_0000 },
            CsrOp::Write { csr: Csr::Mstatus, value: 1 << 3 },
            CsrOp::SetBits { csr: Csr::Mie, mask: 1 << 11 | 1 << 9 | 1 << 7 | 1 << 5 | 1 << 1 },
        ]
    );
}

#[test]
fn setup_leaves_interrupts_enabled() {
    let mut regs: std::collections::HashMap<Csr, usize> = std::collections::HashMap::new();
    for csr in [Csr::Mstatus, Csr::Mie, Csr::Mip, Csr::Mtvec, Csr::Mscratch] {
        regs.insert(csr, 0xdead_beef);
    }
    for op in setup(0x100, 0x200, 0, 0x1000).csr {
        match op {
            CsrOp::Write { csr, value } => {
                regs.insert(csr, value);
            }
            CsrOp::SetBits { csr, mask } => {
                *regs.get_mut(&csr).unwrap() |= mask;
            }
            CsrOp::ClearBits { csr, mask } => {
                *regs.get_mut(&csr).unwrap() &= !mask;
            }
        }
    }
    assert_eq!(regs[&Csr::Mtvec], 0x100);
    assert_eq!(regs[&Csr::Mscratch], 0x200);
    assert_eq!(regs[&Csr::Mie], 0xaa2);
    assert_eq!(regs[&Csr::Mstatus], 0x8);
    assert_eq!(regs[&Csr::Mip], 0xdead_beef);
}

#[test]
fn setup_arms_timer_plic_and_heap() {
    let plan = setup(0x100, 0x200, 1000, 0x10_0000);
    assert_eq!(plan.timer.deadline, 25_001_000);
    assert_eq!(plan.timer.compare_low, RegAccess::Write { addr: 0x7400_4000, value: 25_001_000 });
    assert_eq!(plan.timer.compare_high, RegAccess::Write { addr: 0x7400_4004, value: 0 });
    assert_eq!(plan.timer.ack, CsrOp::ClearBits { csr: Csr::Mip, mask: 0x80 });
    assert_eq!(
        plan.plic,
        vec![
            RegAccess::Write { addr: 0x7020_0000, value: 0 },
            RegAccess::Write { addr: 0x7020_0000, value: 0 },
        ]
    );
    assert_eq!(plan.heap, (0x10_0000, 0x10_0000));
}

#[test]
fn trap_setup_is_setup_csr_part() {
    assert_eq!(trap_setup(0x100, 0x200), setup(0x100, 0x200, 5, 0).csr);
    assert_eq!(trap_setup(0x100, 0x200).len(), 8);
}
