//! The machine timer of the core-local interruptor (CLINT).
use vstd::prelude::*;
use crate::config::SYS_CLOCK_HZ;
use crate::csr::{Csr, CsrOp};
use crate::mmio::RegAccess;

verus! {

/// Offset of the low half of the timer compare register of hart 0.
pub const MTIMECMPL0_OFFSET: usize = 0x4000;

/// Offset of the high half of the timer compare register of hart 0.
pub const MTIMECMPH0_OFFSET: usize = 0x4004;

/// Bytes spanned by the CLINT register block.
pub const CLINT_SPAN: usize = 0xd020;

/// `mip.MTIP`: the machine timer interrupt pending bit.
pub const MIP_MTIP: usize = 0x80;

/// The accesses that arm the machine timer.
#[derive(Debug, Clone, Copy, PartialEq, Eq, Structural)]
pub struct TimerSetup {
    /// The value of `time` at which the timer interrupt fires.
    pub deadline: u64,
    /// The write of the low 32 bits of the deadline.
    pub compare_low: RegAccess,
    /// The write of the high 32 bits of the deadline, after the low ones.
    pub compare_high: RegAccess,
    /// The clearing of the pending timer interrupt, last.
    pub ack: CsrOp,
}

/// The deadline that the two halves of the compare register hold together.
pub open spec fn compare_value(low: u32, high: u32) -> u64 {
    ((high as u64) << 32u64) | (low as u64)
}

/// The accesses that arm the timer of the CLINT at `base` for `deadline`: the low
/// half of the deadline, then the high half, to the compare register of hart 0, then
/// the pending timer interrupt is cleared.
pub open spec fn timer_setup(base: int, deadline: u64) -> TimerSetup {
    TimerSetup {
        deadline,
        compare_low: RegAccess::Write { addr: (base + MTIMECMPL0_OFFSET) as usize, value: deadline as u32 },
        compare_high: RegAccess::Write {
            addr: (base + MTIMECMPH0_OFFSET) as usize,
            value: (deadline >> 32u64) as u32,
        },
        ack: CsrOp::ClearBits { csr: Csr::Mip, mask: MIP_MTIP },
    }
}

/// The machine timer of hart 0, known by the base address of the CLINT.
pub struct Timer(usize);

impl Timer {
    /// The register block fits in the address space.
    #[verifier::type_invariant]
    pub closed spec fn wf(self) -> bool {
        self.0 + CLINT_SPAN <= usize::MAX
    }

    /// The base address of the CLINT.
    pub closed spec fn base(self) -> int {
        self.0 as int
    }

    /// The timer of the CLINT whose registers start at `base`.
    pub fn new(base: usize) -> (r: Timer)
        requires
            base + CLINT_SPAN <= usize::MAX,
        ensures
            r.base() == base,
            r.wf(),
    {
        Timer(base)
    }

    /// The accesses that make the timer interrupt fire `ticks` ticks after `current`,
    /// the value of `time` read first: the deadline goes to the compare register, low
    /// half first, then the pending timer interrupt is cleared.
    pub fn setup_timer(&self, ticks: u64, current: u64) -> (r: TimerSetup)
        requires
            current + ticks <= u64::MAX,
        ensures
            r == timer_setup(self.base(), (current + ticks) as u64),
    {
        proof { use_type_invariant(self); }
        let next = current + ticks;
        TimerSetup {
            deadline: next,
            compare_low: RegAccess::Write { addr: self.0 + MTIMECMPL0_OFFSET, value: next as u32 },
            compare_high: RegAccess::Write {
                addr: self.0 + MTIMECMPH0_OFFSET,
                value: (next >> 32u64) as u32,
            },
            ack: CsrOp::ClearBits { csr: Csr::Mip, mask: MIP_MTIP },
        }
    }

    /// Arms the timer as far in the future as a tick count goes: `u64::MAX` ticks
    /// after `current`.  The sum stays in range only when `current` is 0.
    pub fn disable_timer(&self, current: u64) -> (r: TimerSetup)
        requires
            current + u64::MAX <= u64::MAX,
        ensures
            r == timer_setup(self.base(), u64::MAX),
            r.compare_low == (RegAccess::Write {
                addr: (self.base() + MTIMECMPL0_OFFSET) as usize,
                value: 0xffff_ffffu32,
            }),
            r.compare_high == (RegAccess::Write {
                addr: (self.base() + MTIMECMPH0_OFFSET) as usize,
                value: 0xffff_ffffu32,
            }),
    {
        let r = self.setup_timer(u64::MAX, current);
        assert(0xffff_ffff_ffff_ffffu64 as u32 == 0xffff_ffffu32) by (bit_vector);
        assert((0xffff_ffff_ffff_ffffu64 >> 32u64) as u32 == 0xffff_ffffu32) by (bit_vector);
        r
    }

    /// Arms the timer one second (`SYS_CLOCK_HZ` ticks) after `current`.
    pub fn enable_timer(&self, current: u64) -> (r: TimerSetup)
        requires
            current + SYS_CLOCK_HZ <= u64::MAX,
        ensures
            r == timer_setup(self.base(), (current + SYS_CLOCK_HZ) as u64),
    {
        self.setup_timer(SYS_CLOCK_HZ, current)
    }
}

/// The two halves written to the compare register hold the deadline together: the
/// high half shifted up by 32 bits and joined with the low half is the deadline.
pub proof fn lemma_compare_halves(deadline: u64)
    ensures
        compare_value(deadline as u32, (deadline >> 32u64) as u32) == deadline,
{
    assert(((((deadline >> 32u64) as u32) as u64) << 32u64) | ((deadline as u32) as u64) == deadline)
        by (bit_vector);
}

/// Arming the timer for a deadline writes the compare register of hart 0 so that it
/// holds the deadline: its low half, at offset 0x4000, receives the low 32 bits, its
/// high half, at offset 0x4004, the high 32 bits, whatever the two held before; and the
/// pending timer interrupt is cleared.
pub proof fn lemma_timer_setup_arms_deadline(base: int, deadline: u64, old_low: u32, old_high: u32)
    ensures
        timer_setup(base, deadline).deadline == deadline,
        timer_setup(base, deadline).compare_low.addr() == (base + 0x4000) as usize,
        timer_setup(base, deadline).compare_high.addr() == (base + 0x4004) as usize,
        ((timer_setup(base, deadline).compare_high.after(old_high) as u64) << 32u64)
            | (timer_setup(base, deadline).compare_low.after(old_low) as u64) == deadline,
        timer_setup(base, deadline).ack == (CsrOp::ClearBits { csr: Csr::Mip, mask: 0x80 }),
{
    lemma_compare_halves(deadline);
}

} // verus!
