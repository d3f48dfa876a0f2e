//! Synchronous exceptions: their cause codes and what the handler reports.
use vstd::prelude::*;

verus! {

/// The synchronous exceptions of the machine, by `mcause` exception code.
#[derive(Debug, Clone, Copy, PartialEq, Eq, Structural)]
pub enum Exception {
    /// Code 0.
    InstructionAddressMisaligned,
    /// Code 1.
    InstructionAccessFault,
    /// Code 2.
    IllegalInstruction,
    /// Code 3.
    BREAKPOINT,
    /// Code 4.
    LoadAddressMisaligned,
    /// Code 5.
    LoadAccessFault,
    /// Code 6.
    StoreAmoAddressMisaligned,
    /// Code 7.
    StoreAmoAccessFault,
    /// Code 8.
    EnvironmentCallFromUMode,
    /// Code 9.
    EnvironmentCallFromSMode,
    /// Code 11.
    EnvironmentCallFromMMode,
    /// Code 12.
    InstructionPageFault,
    /// Code 13.
    LoadPageFault,
    /// Code 15.
    StoreAmoPageFault,
}

/// Whether `value` is the code of an exception.
pub open spec fn is_exception_code(value: u32) -> bool {
    value <= 15 && value != 10 && value != 14
}

impl Exception {
    /// The `mcause` exception code.
    pub open spec fn code(self) -> u32 {
        match self {
            Exception::InstructionAddressMisaligned => 0,
            Exception::InstructionAccessFault => 1,
            Exception::IllegalInstruction => 2,
            Exception::BREAKPOINT => 3,
            Exception::LoadAddressMisaligned => 4,
            Exception::LoadAccessFault => 5,
            Exception::StoreAmoAddressMisaligned => 6,
            Exception::StoreAmoAccessFault => 7,
            Exception::EnvironmentCallFromUMode => 8,
            Exception::EnvironmentCallFromSMode => 9,
            Exception::EnvironmentCallFromMMode => 11,
            Exception::InstructionPageFault => 12,
            Exception::LoadPageFault => 13,
            Exception::StoreAmoPageFault => 15,
        }
    }

    /// The exception whose code is `value`.
    pub fn from_u32(value: u32) -> (r: Self)
        requires
            is_exception_code(value),
        ensures
            r.code() == value,
            value == 0 ==> r == Exception::InstructionAddressMisaligned,
            value == 1 ==> r == Exception::InstructionAccessFault,
            value == 2 ==> r == Exception::IllegalInstruction,
            value == 3 ==> r == Exception::BREAKPOINT,
            value == 4 ==> r == Exception::LoadAddressMisaligned,
            value == 5 ==> r == Exception::LoadAccessFault,
            value == 6 ==> r == Exception::StoreAmoAddressMisaligned,
            value == 7 ==> r == Exception::StoreAmoAccessFault,
            value == 8 ==> r == Exception::EnvironmentCallFromUMode,
            value == 9 ==> r == Exception::EnvironmentCallFromSMode,
            value == 11 ==> r == Exception::EnvironmentCallFromMMode,
            value == 12 ==> r == Exception::InstructionPageFault,
            value == 13 ==> r == Exception::LoadPageFault,
            value == 15 ==> r == Exception::StoreAmoPageFault,
    {
        match value {
            0 => Exception::InstructionAddressMisaligned,
            1 => Exception::InstructionAccessFault,
            2 => Exception::IllegalInstruction,
            3 => Exception::BREAKPOINT,
            4 => Exception::LoadAddressMisaligned,
            5 => Exception::LoadAccessFault,
            6 => Exception::StoreAmoAddressMisaligned,
            7 => Exception::StoreAmoAccessFault,
            8 => Exception::EnvironmentCallFromUMode,
            9 => Exception::EnvironmentCallFromSMode,
            11 => Exception::EnvironmentCallFromMMode,
            12 => Exception::InstructionPageFault,
            13 => Exception::LoadPageFault,
            _ => Exception::StoreAmoPageFault,
        }
    }
}

/// The line that the exception handler prints for `exception`.
pub open spec fn exception_message(exception: Exception) -> Seq<char> {
    match exception {
        Exception::InstructionAddressMisaligned => "Instruction address misaligned."@,
        Exception::InstructionAccessFault => "Instruction access fault."@,
        Exception::IllegalInstruction => "Illegal instruction."@,
        Exception::BREAKPOINT => "Breakpoint."@,
        Exception::LoadAddressMisaligned => "Load address misaligned."@,
        Exception::LoadAccessFault => "Load access fault."@,
        Exception::StoreAmoAddressMisaligned => " Store/AMO address misaligned."@,
        Exception::StoreAmoAccessFault => "Store/AMO access fault."@,
        Exception::EnvironmentCallFromUMode => "Environment call from U-mode."@,
        Exception::EnvironmentCallFromSMode => "Environment call from S-mode."@,
        Exception::EnvironmentCallFromMMode => "Environment call from M-mode."@,
        Exception::InstructionPageFault => "Instruction page fault."@,
        Exception::LoadPageFault => "Load page fault."@,
        Exception::StoreAmoPageFault => "Store/AMO page fault."@,
    }
}

/// The line that the exception handler prints for `exception`, before it dumps the
/// stack and stops.
pub fn exception_handler(exception: Exception) -> (r: &'static str)
    ensures
        r@ == exception_message(exception),
{
    match exception {
        Exception::InstructionAddressMisaligned => "Instruction address misaligned.",
        Exception::InstructionAccessFault => "Instruction access fault.",
        Exception::IllegalInstruction => "Illegal instruction.",
        Exception::BREAKPOINT => "Breakpoint.",
        Exception::LoadAddressMisaligned => "Load address misaligned.",
        Exception::LoadAccessFault => "Load access fault.",
        Exception::StoreAmoAddressMisaligned => " Store/AMO address misaligned.",
        Exception::StoreAmoAccessFault => "Store/AMO access fault.",
        Exception::EnvironmentCallFromUMode => "Environment call from U-mode.",
        Exception::EnvironmentCallFromSMode => "Environment call from S-mode.",
        Exception::EnvironmentCallFromMMode => "Environment call from M-mode.",
        Exception::InstructionPageFault => "Instruction page fault.",
        Exception::LoadPageFault => "Load page fault.",
        Exception::StoreAmoPageFault => "Store/AMO page fault.",
    }
}

/// The addresses of the code bytes that the stack dump prints for the exception
/// program counter `epc`: the four bytes from `epc` on, or none when `epc` is below 4.
pub fn code_dump_addrs(epc: usize) -> (r: Vec<usize>)
    requires
        epc < 4 || epc + 4 <= usize::MAX,
    ensures
        epc < 4 ==> r@.len() == 0,
        epc >= 4 ==> r@ == seq![epc, (epc + 1) as usize, (epc + 2) as usize, (epc + 3) as usize],
{
    let mut addrs: Vec<usize> = Vec::new();
    if epc >= 4 {
        let mut addr = epc;
        while addr < epc + 4
            invariant
                epc >= 4,
                epc + 4 <= usize::MAX,
                epc <= addr <= epc + 4,
                addrs@.len() == addr - epc,
                forall|k: int| 0 <= k < addrs@.len() ==> addrs@[k] == epc + k,
            decreases epc + 4 - addr,
        {
            addrs.push(addr);
            addr = addr + 1;
        }
    }
    addrs
}

/// The codes are those of the RISC-V `mcause` table for exceptions, and distinct
/// exceptions have distinct codes.
pub proof fn lemma_exception_codes(a: Exception, b: Exception)
    ensures
        Exception::InstructionAddressMisaligned.code() == 0,
        Exception::InstructionAccessFault.code() == 1,
        Exception::IllegalInstruction.code() == 2,
        Exception::BREAKPOINT.code() == 3,
        Exception::LoadAddressMisaligned.code() == 4,
        Exception::LoadAccessFault.code() == 5,
        Exception::StoreAmoAddressMisaligned.code() == 6,
        Exception::StoreAmoAccessFault.code() == 7,
        Exception::EnvironmentCallFromUMode.code() == 8,
        Exception::EnvironmentCallFromSMode.code() == 9,
        Exception::EnvironmentCallFromMMode.code() == 11,
        Exception::InstructionPageFault.code() == 12,
        Exception::LoadPageFault.code() == 13,
        Exception::StoreAmoPageFault.code() == 15,
        a != b ==> a.code() != b.code(),
{
}

/// The line printed for each exception names its cause.
pub proof fn lemma_exception_messages()
    ensures
        exception_message(Exception::InstructionAddressMisaligned) == "Instruction address misaligned."@,
        exception_message(Exception::InstructionAccessFault) == "Instruction access fault."@,
        exception_message(Exception::IllegalInstruction) == "Illegal instruction."@,
        exception_message(Exception::BREAKPOINT) == "Breakpoint."@,
        exception_message(Exception::LoadAddressMisaligned) == "Load address misaligned."@,
        exception_message(Exception::LoadAccessFault) == "Load access fault."@,
        exception_message(Exception::StoreAmoAddressMisaligned) == " Store/AMO address misaligned."@,
        exception_message(Exception::StoreAmoAccessFault) == "Store/AMO access fault."@,
        exception_message(Exception::EnvironmentCallFromUMode) == "Environment call from U-mode."@,
        exception_message(Exception::EnvironmentCallFromSMode) == "Environment call from S-mode."@,
        exception_message(Exception::EnvironmentCallFromMMode) == "Environment call from M-mode."@,
        exception_message(Exception::InstructionPageFault) == "Instruction page fault."@,
        exception_message(Exception::LoadPageFault) == "Load page fault."@,
        exception_message(Exception::StoreAmoPageFault) == "Store/AMO page fault."@,
{
}

} // verus!
