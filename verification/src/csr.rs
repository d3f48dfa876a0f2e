//! Machine-mode control and status registers, and the operations on them.
use vstd::prelude::*;

verus! {

/// The control and status registers that the firmware touches.
#[derive(Debug, Clone, Copy, PartialEq, Eq, Hash, Structural)]
pub enum Csr {
    Mstatus,
    Mie,
    Mip,
    Mtvec,
    Mscratch,
}

/// One operation on a control and status register.
#[derive(Debug, Clone, Copy, PartialEq, Eq, Structural)]
pub enum CsrOp {
    /// Store `value` into the register (`csrw`).
    Write { csr: Csr, value: usize },
    /// Set the bits of `mask` in the register (`csrs`).
    SetBits { csr: Csr, mask: usize },
    /// Clear the bits of `mask` in the register (`csrc`).
    ClearBits { csr: Csr, mask: usize },
}

impl CsrOp {
    /// The register that the operation touches.
    pub open spec fn target(self) -> Csr {
        match self {
            CsrOp::Write { csr, .. } => csr,
            CsrOp::SetBits { csr, .. } => csr,
            CsrOp::ClearBits { csr, .. } => csr,
        }
    }

    /// The content of register `csr` after the operation, when it held `old` before.
    pub open spec fn after(self, csr: Csr, old: usize) -> usize {
        if self.target() != csr {
            old
        } else {
            match self {
                CsrOp::Write { value, .. } => value,
                CsrOp::SetBits { mask, .. } => old | mask,
                CsrOp::ClearBits { mask, .. } => old & !mask,
            }
        }
    }
}

/// The content of register `csr` after the operations `ops`, performed in order,
/// when it held `initial` before them.
pub open spec fn csr_after(ops: Seq<CsrOp>, csr: Csr, initial: usize) -> usize
    decreases ops.len(),
{
    if ops.len() == 0 {
        initial
    } else {
        ops.last().after(csr, csr_after(ops.drop_last(), csr, initial))
    }
}

} // verus!
