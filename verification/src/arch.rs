//! Machine-level setup: traps, the interrupt controller, the timer and the heap.
pub mod plic;
pub mod timer;
pub mod exception;
pub mod interrupt;
pub mod mm;

use vstd::prelude::*;
use crate::csr::{Csr, CsrOp};
use crate::config::{CLINT_BASE, MEM_SIZE, PLIC_BASE, SYS_CLOCK_HZ};
use crate::mmio::RegAccess;
use crate::arch::timer::{Timer, TimerSetup};
use crate::arch::plic::{Plic, plic_init, CONTEXT_OFFSET};
use crate::arch::mm::init_heap;

verus! {

/// `mstatus.FS` set to "initial": floating point enabled.
pub const MSTATUS_FS_INITIAL: usize = 0x2000;

/// `mstatus.MIE`: machine-mode interrupts enabled.
pub const MSTATUS_MIE: usize = 0x8;

/// `mie` bits of the machine timer and machine external interrupts.
pub const MIE_MACHINE_TIMER_EXTERNAL: usize = 0x880;

/// `mie` bits 11, 9, 7, 5 and 1: the machine and supervisor external, timer and
/// software interrupts.
pub const MIE_ALL: usize = 0xaa2;

/// The control and status register operations that prepare the core for traps, in
/// the order in which they are performed: `trap_vector` is the address of the trap
/// handler, `trap_frames` that of the machine-mode trap frames.
pub open spec fn setup_csr_ops(trap_vector: usize, trap_frames: usize) -> Seq<CsrOp> {
    seq![
        CsrOp::Write { csr: Csr::Mscratch, value: 0 },
        CsrOp::Write { csr: Csr::Mie, value: 0 },
        CsrOp::Write { csr: Csr::Mtvec, value: trap_vector },
        CsrOp::SetBits { csr: Csr::Mstatus, mask: MSTATUS_FS_INITIAL },
        CsrOp::SetBits { csr: Csr::Mie, mask: MIE_MACHINE_TIMER_EXTERNAL },
        CsrOp::Write { csr: Csr::Mscratch, value: trap_frames },
        CsrOp::Write { csr: Csr::Mstatus, value: MSTATUS_MIE },
        CsrOp::SetBits { csr: Csr::Mie, mask: MIE_ALL },
    ]
}

/// The first part of the machine-level setup: the control and status register
/// operations that prepare the core for traps.  The time read that arms the timer
/// comes after them.
pub fn trap_setup(trap_vector: usize, trap_frames: usize) -> (r: Vec<CsrOp>)
    ensures
        r@ == setup_csr_ops(trap_vector, trap_frames),
{
    let mut csr: Vec<CsrOp> = Vec::new();
    csr.push(CsrOp::Write { csr: Csr::Mscratch, value: 0 });
    csr.push(CsrOp::Write { csr: Csr::Mie, value: 0 });
    csr.push(CsrOp::Write { csr: Csr::Mtvec, value: trap_vector });
    csr.push(CsrOp::SetBits { csr: Csr::Mstatus, mask: MSTATUS_FS_INITIAL });
    csr.push(CsrOp::SetBits { csr: Csr::Mie, mask: MIE_MACHINE_TIMER_EXTERNAL });
    csr.push(CsrOp::Write { csr: Csr::Mscratch, value: trap_frames });
    csr.push(CsrOp::Write { csr: Csr::Mstatus, value: MSTATUS_MIE });
    csr.push(CsrOp::SetBits { csr: Csr::Mie, mask: MIE_ALL });
    csr
}

/// What the machine-level setup does, in this order.
pub struct SetupPlan {
    /// The control and status register operations that prepare the core for traps.
    pub csr: Vec<CsrOp>,
    /// Arming the machine timer one second ahead.
    pub timer: TimerSetup,
    /// Initialising the interrupt controller.
    pub plic: Vec<RegAccess>,
    /// The region handed to the heap allocator, as (start address, size in bytes).
    pub heap: (usize, usize),
}

/// The machine-level setup of the core: the control and status registers are
/// prepared for traps (`trap_vector` and `trap_frames` are the addresses of the trap
/// handler and of the machine-mode trap frames; `trap_setup` gives the same
/// operations), the timer of the CLINT at `CLINT_BASE` is armed `SYS_CLOCK_HZ` ticks
/// after `now`, the value of `time` read for it once those operations are done, the PLIC at `PLIC_BASE` gets priority threshold 0 in context 0 (written by
/// `init_by_context` and again by `set_threshold`), and the heap starting at
/// `heap_start` is handed to the allocator.
pub fn setup(trap_vector: usize, trap_frames: usize, now: u64, heap_start: usize) -> (r: SetupPlan)
    requires
        now + SYS_CLOCK_HZ <= u64::MAX,
        heap_start <= MEM_SIZE,
    ensures
        r.csr@ == setup_csr_ops(trap_vector, trap_frames),
        r.timer == crate::arch::timer::timer_setup(CLINT_BASE as int, (now + SYS_CLOCK_HZ) as u64),
        r.plic@ == seq![
            RegAccess::Write { addr: (PLIC_BASE + CONTEXT_OFFSET) as usize, value: 0 },
            RegAccess::Write { addr: (PLIC_BASE + CONTEXT_OFFSET) as usize, value: 0 },
        ],
        r.heap == (heap_start, (MEM_SIZE - heap_start) as usize),
{
    let csr = trap_setup(trap_vector, trap_frames);
    let timer = Timer::new(CLINT_BASE).enable_timer(now);
    let mut plic = Plic::new(PLIC_BASE);
    let plic_ops = plic_init(&mut plic);
    let heap = init_heap(heap_start);
    SetupPlan { csr, timer, plic: plic_ops, heap }
}

/// Whatever the registers held before, after `setup` the trap vector and trap frames
/// are the given ones, `mie` holds exactly the bits 11, 9, 7, 5 and 1, and `mstatus`
/// holds exactly `MIE`: its later plain write replaces the floating-point bits set
/// before it.
pub proof fn lemma_setup_final_state(
    trap_vector: usize,
    trap_frames: usize,
    ops: Seq<CsrOp>,
    mstatus: usize,
    mie: usize,
    mtvec: usize,
    mscratch: usize,
)
    requires
        ops == setup_csr_ops(trap_vector, trap_frames),
    ensures
        crate::csr::csr_after(ops, Csr::Mtvec, mtvec) == trap_vector,
        crate::csr::csr_after(ops, Csr::Mscratch, mscratch) == trap_frames,
        crate::csr::csr_after(ops, Csr::Mie, mie) == MIE_ALL,
        crate::csr::csr_after(ops, Csr::Mstatus, mstatus) == MSTATUS_MIE,
{
    reveal_with_fuel(crate::csr::csr_after, 9);
    assert((0usize | 0x880usize) | 0xaa2usize == 0xaa2usize) by (bit_vector);
}

} // verus!
