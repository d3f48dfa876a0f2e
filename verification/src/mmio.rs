use vstd::prelude::*;

verus! {

/// One access to a 32-bit memory-mapped register.
#[derive(Debug, Clone, Copy, PartialEq, Eq, Structural)]
pub enum RegAccess {
    /// Read the register; the value read is the answer of the operation.
    Read { addr: usize },
    /// Store `value` into the register.
    Write { addr: usize, value: u32 },
    /// Read the register and store `(old & and_mask) | or_mask` back into it.
    Update { addr: usize, and_mask: u32, or_mask: u32 },
}

impl RegAccess {
    /// The address of the register that the access touches.
    pub open spec fn addr_spec(&self) -> usize {
        match *self {
            RegAccess::Read { addr } => addr,
            RegAccess::Write { addr, .. } => addr,
            RegAccess::Update { addr, .. } => addr,
        }
    }

    /// The content of the register after the access, when it held `old` before.
    pub open spec fn after(self, old: u32) -> u32 {
        match self {
            RegAccess::Read { .. } => old,
            RegAccess::Write { value, .. } => value,
            RegAccess::Update { and_mask, or_mask, .. } => (old & and_mask) | or_mask,
        }
    }

    /// The address of the register that the access touches.
    #[verifier::when_used_as_spec(addr_spec)]
    pub fn addr(&self) -> (r: usize)
        ensures
            r == self.addr_spec(),
    {
        match self {
            RegAccess::Read { addr } => *addr,
            RegAccess::Write { addr, .. } => *addr,
            RegAccess::Update { addr, .. } => *addr,
        }
    }

    /// The value to store into the register when it held `old`.
    pub fn new_value(&self, old: u32) -> (r: u32)
        ensures
            r == self.after(old),
    {
        match self {
            RegAccess::Read { .. } => old,
            RegAccess::Write { value, .. } => *value,
            RegAccess::Update { and_mask, or_mask, .. } => (old & *and_mask) | *or_mask,
        }
    }
}

/// One access to an 8-bit memory-mapped register.
#[derive(Debug, Clone, Copy, PartialEq, Eq, Structural)]
pub enum ByteAccess {
    /// Read the register; the value read is the answer of the operation.
    Read { addr: usize },
    /// Store `value` into the register.
    Write { addr: usize, value: u8 },
    /// Read the register and store `(old & and_mask) | or_mask` back into it.
    Update { addr: usize, and_mask: u8, or_mask: u8 },
}

impl ByteAccess {
    /// The address of the register that the access touches.
    pub open spec fn addr_spec(&self) -> usize {
        match *self {
            ByteAccess::Read { addr } => addr,
            ByteAccess::Write { addr, .. } => addr,
            ByteAccess::Update { addr, .. } => addr,
        }
    }

    /// The content of the register after the access, when it held `old` before.
    pub open spec fn after(self, old: u8) -> u8 {
        match self {
            ByteAccess::Read { .. } => old,
            ByteAccess::Write { value, .. } => value,
            ByteAccess::Update { and_mask, or_mask, .. } => (old & and_mask) | or_mask,
        }
    }

    /// The address of the register that the access touches.
    #[verifier::when_used_as_spec(addr_spec)]
    pub fn addr(&self) -> (r: usize)
        ensures
            r == self.addr_spec(),
    {
        match self {
            ByteAccess::Read { addr } => *addr,
            ByteAccess::Write { addr, .. } => *addr,
            ByteAccess::Update { addr, .. } => *addr,
        }
    }

    /// The value to store into the register when it held `old`.
    pub fn new_value(&self, old: u8) -> (r: u8)
        ensures
            r == self.after(old),
    {
        match self {
            ByteAccess::Read { .. } => old,
            ByteAccess::Write { value, .. } => *value,
            ByteAccess::Update { and_mask, or_mask, .. } => (old & *and_mask) | *or_mask,
        }
    }
}

/// A question answered by one bit of a 32-bit register: read the register at `addr`,
/// and the answer is whether any bit of `mask` is set in the value read.
#[derive(Debug, Clone, Copy, PartialEq, Eq, Structural)]
pub struct BitTest {
    pub addr: usize,
    pub mask: u32,
}

impl BitTest {
    /// The answer when the register holds `word`.
    pub open spec fn holds(self, word: u32) -> bool {
        word & self.mask != 0
    }

    /// The answer when the register holds `word`.
    pub fn test(&self, word: u32) -> (r: bool)
        ensures
            r == self.holds(word),
    {
        word & self.mask != 0
    }
}

/// The mask with only bit `i` set.
pub open spec fn bit32(i: u32) -> u32 {
    1u32 << i
}

/// Setting bit `i` of a word sets that bit and leaves every other bit as it was;
/// clearing it clears that bit and leaves every other bit as it was.
pub proof fn lemma_bit32_set_clear(word: u32, i: u32, j: u32)
    requires
        i < 32,
        j < 32,
    ensures
        (word | bit32(i)) & bit32(i) != 0,
        (word & !bit32(i)) & bit32(i) == 0,
        i != j ==> ((word | bit32(i)) & bit32(j) == word & bit32(j)),
        i != j ==> ((word & !bit32(i)) & bit32(j) == word & bit32(j)),
{
    assert((word | (1u32 << i)) & (1u32 << i) != 0) by (bit_vector)
        requires
            i < 32,
    ;
    assert((word & !(1u32 << i)) & (1u32 << i) == 0) by (bit_vector)
        requires
            i < 32,
    ;
    assert(i != j ==> ((word | (1u32 << i)) & (1u32 << j) == word & (1u32 << j))) by (bit_vector)
        requires
            i < 32,
            j < 32,
    ;
    assert(i != j ==> ((word & !(1u32 << i)) & (1u32 << j) == word & (1u32 << j))) by (bit_vector)
        requires
            i < 32,
            j < 32,
    ;
}

} // verus!
