//! The platform-level interrupt controller.  Section numbers (§) refer to the
//! RISC-V Platform-Level Interrupt Controller standard.
use vstd::prelude::*;
use crate::mmio::{RegAccess, BitTest};

verus! {

/// Number of interrupt lines that can carry a handler.
pub const NUM_IRQ: usize = 128;

/// Number of interrupt sources of a PLIC (§1).
pub const SOURCE_NUM: usize = 1024;

/// Number of contexts of a PLIC (§1).
pub const CONTEXT_NUM: usize = 15872;

/// Bits in one 32-bit register.
pub const U32_BITS: usize = 32;

/// Bytes spanned by the register block of a PLIC.
pub const PLIC_SPAN: usize = 0x4000000;

/// Offset of the interrupt pending bits.
pub const PENDING_OFFSET: usize = 0x1000;

/// Offset of the per-context interrupt enable bits.
pub const ENABLE_OFFSET: usize = 0x2000;

/// Bytes of enable bits per context.
pub const ENABLE_STRIDE: usize = 0x80;

/// Offset of the per-context threshold and claim/complete registers.
pub const CONTEXT_OFFSET: usize = 0x200000;

/// Bytes of threshold and claim/complete registers per context.
pub const CONTEXT_STRIDE: usize = 0x1000;

/// The priority a source gets when a handler is registered for it.
pub const HANDLER_PRIORITY: u32 = 7;

/// The register word that holds the bit of `source` among pending or enable bits.
pub open spec fn group_of(source: int) -> int {
    source / 32
}

/// The bit of `source` within its register word.
pub open spec fn index_of(source: int) -> int {
    source % 32
}

/// The mask of the bit of `source` within its register word.
pub open spec fn source_mask(source: u32) -> u32 {
    crate::mmio::bit32(source % 32)
}

/// Splits an interrupt source number into the register word that holds its bit and
/// the position of the bit in that word.
pub fn parse_group_and_index(source: usize) -> (r: (usize, usize))
    ensures
        r.0 == group_of(source as int),
        r.1 == index_of(source as int),
        r.0 * 32 + r.1 == source,
        r.1 < 32,
{
    let group = source / U32_BITS;
    let index = source % U32_BITS;
    (group, index)
}

/// Platform-Level Interrupt Controller, known by the base address of its registers.
pub struct Plic {
    base: usize,
}

impl Plic {
    /// The base address is not null and the whole register block fits in the
    /// address space.
    #[verifier::type_invariant]
    pub closed spec fn wf(self) -> bool {
        self.base != 0 && self.base + PLIC_SPAN <= usize::MAX
    }

    /// The base address of the register block.
    pub closed spec fn base(self) -> int {
        self.base as int
    }

    /// Address of the priority register of `source` (§4).
    pub open spec fn priority_reg(self, source: int) -> int {
        self.base() + 4 * source
    }

    /// Address of the pending word that holds the bit of `source` (§5).
    pub open spec fn pending_reg(self, source: int) -> int {
        self.base() + PENDING_OFFSET + 4 * group_of(source)
    }

    /// Address of the enable word of `context` that holds the bit of `source` (§6).
    pub open spec fn enable_reg(self, source: int, context: int) -> int {
        self.base() + ENABLE_OFFSET + ENABLE_STRIDE * context + 4 * group_of(source)
    }

    /// Address of the priority threshold register of `context` (§7).
    pub open spec fn threshold_reg(self, context: int) -> int {
        self.base() + CONTEXT_OFFSET + CONTEXT_STRIDE * context
    }

    /// Address of the claim/complete register of `context` (§8, §9).
    pub open spec fn claim_reg(self, context: int) -> int {
        self.threshold_reg(context) + 4
    }

    /// The write that sets the priority of `source` to `value`.
    pub open spec fn priority_write(self, source: u32, value: u32) -> RegAccess {
        RegAccess::Write { addr: self.priority_reg(source as int) as usize, value }
    }

    /// The read of the priority of `source`.
    pub open spec fn priority_read(self, source: u32) -> RegAccess {
        RegAccess::Read { addr: self.priority_reg(source as int) as usize }
    }

    /// The test of the pending bit of `source`.
    pub open spec fn pending_test(self, source: u32) -> BitTest {
        BitTest { addr: self.pending_reg(source as int) as usize, mask: source_mask(source) }
    }

    /// The write-back of the pending word of `source` with every other bit set.
    pub open spec fn clear_pending_access(self, source: u32) -> RegAccess {
        RegAccess::Update {
            addr: self.pending_reg(source as int) as usize,
            and_mask: 0xffff_ffffu32,
            or_mask: !source_mask(source),
        }
    }

    /// The update that sets the enable bit of `source` in `context`.
    pub open spec fn enable_access(self, source: u32, context: usize) -> RegAccess {
        RegAccess::Update {
            addr: self.enable_reg(source as int, context as int) as usize,
            and_mask: 0xffff_ffffu32,
            or_mask: source_mask(source),
        }
    }

    /// The update that clears the enable bit of `source` in `context`.
    pub open spec fn disable_access(self, source: u32, context: usize) -> RegAccess {
        RegAccess::Update {
            addr: self.enable_reg(source as int, context as int) as usize,
            and_mask: !source_mask(source),
            or_mask: 0,
        }
    }

    /// The test of the enable bit of `source` in `context`.
    pub open spec fn enabled_test(self, source: u32, context: usize) -> BitTest {
        BitTest { addr: self.enable_reg(source as int, context as int) as usize, mask: source_mask(source) }
    }

    /// The write that sets the priority threshold of `context` to `value`.
    pub open spec fn threshold_write(self, context: usize, value: u32) -> RegAccess {
        RegAccess::Write { addr: self.threshold_reg(context as int) as usize, value }
    }

    /// The read of the priority threshold of `context`.
    pub open spec fn threshold_read(self, context: usize) -> RegAccess {
        RegAccess::Read { addr: self.threshold_reg(context as int) as usize }
    }

    /// The read that claims an interrupt in `context`.
    pub open spec fn claim_read(self, context: usize) -> RegAccess {
        RegAccess::Read { addr: self.claim_reg(context as int) as usize }
    }

    /// The write that completes interrupt `source` in `context`.
    pub open spec fn complete_write(self, context: usize, source: u32) -> RegAccess {
        RegAccess::Write { addr: self.claim_reg(context as int) as usize, value: source }
    }

    /// Create a new instance of the PLIC from the base address.
    ///
    /// The base address must not be null, and the register block must fit in the
    /// address space.
    pub fn new(base: usize) -> (r: Self)
        requires
            base != 0,
            base + PLIC_SPAN <= usize::MAX,
        ensures
            r.base() == base,
            r.wf(),
    {
        Plic { base }
    }

    /// Initialize the PLIC by context, setting the priority threshold to 0.
    pub fn init_by_context(&mut self, context: usize) -> (r: RegAccess)
        requires
            context < CONTEXT_NUM,
        ensures
            *final(self) == *old(self),
            r == old(self).threshold_write(context, 0),
    {
        self.set_threshold(context, 0)
    }

    /// Sets priority for interrupt `source` to `value`.
    ///
    /// Write `0` to priority `value` effectively disables this interrupt `source`, for the priority
    /// value 0 is reserved for "never interrupt" by the PLIC standard.
    ///
    /// The lowest active priority is priority `1`. The maximum priority depends on PLIC implementation
    /// and can be detected with [`Plic::probe_priority_bits`].
    ///
    /// See §4.
    pub fn set_priority(&self, source: u32, value: u32) -> (r: RegAccess)
        requires
            source < SOURCE_NUM,
        ensures
            r == self.priority_write(source, value),
    {
        RegAccess::Write { addr: self.priority_addr(source), value }
    }

    /// Gets priority for interrupt `source`: the value read by the access.
    ///
    /// See §4.
    pub fn get_priority(&self, source: u32) -> (r: RegAccess)
        requires
            source < SOURCE_NUM,
        ensures
            r == self.priority_read(source),
    {
        RegAccess::Read { addr: self.priority_addr(source) }
    }

    /// Probe maximum level of priority for interrupt `source`: all ones are written
    /// to its priority register, and the value read back is the answer.
    ///
    /// See §4.
    pub fn probe_priority_bits(&self, source: u32) -> (r: Vec<RegAccess>)
        requires
            source < SOURCE_NUM,
        ensures
            r@ == seq![self.priority_write(source, 0xffff_ffffu32), self.priority_read(source)],
    {
        let addr = self.priority_addr(source);
        let mut ops: Vec<RegAccess> = Vec::new();
        ops.push(RegAccess::Write { addr, value: 0xffff_ffffu32 });
        ops.push(RegAccess::Read { addr });
        ops
    }

    /// Check if interrupt `source` is pending.
    ///
    /// See §5.
    pub fn is_pending(&self, source: u32) -> (r: BitTest)
        requires
            source < SOURCE_NUM,
        ensures
            r == self.pending_test(source),
    {
        let (group, index) = parse_group_and_index(source as usize);
        BitTest { addr: self.pending_addr(group), mask: 1u32 << (index as u32) }
    }

    /// Writes back the pending word of `source` with every other bit set, the bit of
    /// `source` itself keeping the value read.
    pub fn clear_pending(&self, source: u32) -> (r: RegAccess)
        requires
            source < SOURCE_NUM,
        ensures
            r == self.clear_pending_access(source),
    {
        let (group, index) = parse_group_and_index(source as usize);
        RegAccess::Update {
            addr: self.pending_addr(group),
            and_mask: 0xffff_ffffu32,
            or_mask: !(1u32 << (index as u32)),
        }
    }

    /// Enable interrupt `source` in `context`.
    ///
    /// See §6.
    pub fn enable(&self, source: u32, context: usize) -> (r: RegAccess)
        requires
            source < SOURCE_NUM,
            context < CONTEXT_NUM,
        ensures
            r == self.enable_access(source, context),
    {
        let (group, index) = parse_group_and_index(source as usize);
        RegAccess::Update {
            addr: self.enable_addr(group, context),
            and_mask: 0xffff_ffffu32,
            or_mask: 1u32 << (index as u32),
        }
    }

    /// Disable interrupt `source` in `context`.
    ///
    /// See §6.
    pub fn disable(&self, source: u32, context: usize) -> (r: RegAccess)
        requires
            source < SOURCE_NUM,
            context < CONTEXT_NUM,
        ensures
            r == self.disable_access(source, context),
    {
        let (group, index) = parse_group_and_index(source as usize);
        RegAccess::Update {
            addr: self.enable_addr(group, context),
            and_mask: !(1u32 << (index as u32)),
            or_mask: 0,
        }
    }

    /// Check if interrupt `source` is enabled in `context`.
    ///
    /// See §6.
    pub fn is_enabled(&self, source: u32, context: usize) -> (r: BitTest)
        requires
            source < SOURCE_NUM,
            context < CONTEXT_NUM,
        ensures
            r == self.enabled_test(source, context),
    {
        let (group, index) = parse_group_and_index(source as usize);
        BitTest { addr: self.enable_addr(group, context), mask: 1u32 << (index as u32) }
    }

    /// Get interrupt threshold in `context`: the value read by the access.
    ///
    /// See §7.
    pub fn get_threshold(&self, context: usize) -> (r: RegAccess)
        requires
            context < CONTEXT_NUM,
        ensures
            r == self.threshold_read(context),
    {
        RegAccess::Read { addr: self.threshold_addr(context) }
    }

    /// Set interrupt threshold for `context` to `value`.
    ///
    /// See §7.
    pub fn set_threshold(&self, context: usize, value: u32) -> (r: RegAccess)
        requires
            context < CONTEXT_NUM,
        ensures
            r == self.threshold_write(context, value),
    {
        RegAccess::Write { addr: self.threshold_addr(context), value }
    }

    /// Probe maximum supported threshold value the `context` supports: all ones are
    /// written to its threshold register, and the value read back is the answer.
    ///
    /// See §7.
    pub fn probe_threshold_bits(&self, context: usize) -> (r: Vec<RegAccess>)
        requires
            context < CONTEXT_NUM,
        ensures
            r@ == seq![self.threshold_write(context, 0xffff_ffffu32), self.threshold_read(context)],
    {
        let addr = self.threshold_addr(context);
        let mut ops: Vec<RegAccess> = Vec::new();
        ops.push(RegAccess::Write { addr, value: 0xffff_ffffu32 });
        ops.push(RegAccess::Read { addr });
        ops
    }

    /// Claim an interrupt in `context`: the value read by the access is its source.
    ///
    /// It is always legal for a hart to perform a claim even if `EIP` is not set.
    /// A hart could set threshold to maximum to disable interrupt notification, but it does not mean
    /// interrupt source has stopped to send interrupt signals. In this case, hart would instead
    /// poll for active interrupt by periodically calling the `claim` function.
    ///
    /// See §8.
    pub fn claim(&self, context: usize) -> (r: RegAccess)
        requires
            context < CONTEXT_NUM,
        ensures
            r == self.claim_read(context),
    {
        RegAccess::Read { addr: self.claim_addr(context) }
    }

    /// Mark that interrupt identified by `source` is completed in `context`.
    ///
    /// See §9.
    pub fn complete(&self, context: usize, source: u32) -> (r: RegAccess)
        requires
            context < CONTEXT_NUM,
        ensures
            r == self.complete_write(context, source),
    {
        RegAccess::Write { addr: self.claim_addr(context), value: source }
    }

    fn priority_addr(&self, source: u32) -> (r: usize)
        requires
            source < SOURCE_NUM,
        ensures
            r == self.priority_reg(source as int),
    {
        proof { use_type_invariant(self); }
        self.base + 4 * (source as usize)
    }

    fn pending_addr(&self, group: usize) -> (r: usize)
        requires
            group < SOURCE_NUM / U32_BITS,
        ensures
            forall|s: int| group_of(s) == group ==> r == self.pending_reg(s),
    {
        proof { use_type_invariant(self); }
        self.base + PENDING_OFFSET + 4 * group
    }

    fn enable_addr(&self, group: usize, context: usize) -> (r: usize)
        requires
            group < SOURCE_NUM / U32_BITS,
            context < CONTEXT_NUM,
        ensures
            forall|s: int| group_of(s) == group ==> r == self.enable_reg(s, context as int),
    {
        proof { use_type_invariant(self); }
        self.base + ENABLE_OFFSET + ENABLE_STRIDE * context + 4 * group
    }

    fn threshold_addr(&self, context: usize) -> (r: usize)
        requires
            context < CONTEXT_NUM,
        ensures
            r == self.threshold_reg(context as int),
    {
        proof { use_type_invariant(self); }
        self.base + CONTEXT_OFFSET + CONTEXT_STRIDE * context
    }

    fn claim_addr(&self, context: usize) -> (r: usize)
        requires
            context < CONTEXT_NUM,
        ensures
            r == self.claim_reg(context as int),
    {
        proof { use_type_invariant(self); }
        self.base + CONTEXT_OFFSET + CONTEXT_STRIDE * context + 4
    }
}

/// The register accesses that initialise the PLIC: context 0 gets priority
/// threshold 0, written once by `init_by_context` and once by `set_threshold`.
pub fn plic_init(plic: &mut Plic) -> (r: Vec<RegAccess>)
    ensures
        *final(plic) == *old(plic),
        r@ == seq![old(plic).threshold_write(0, 0), old(plic).threshold_write(0, 0)],
{
    let mut ops: Vec<RegAccess> = Vec::new();
    ops.push(plic.init_by_context(0));
    ops.push(plic.set_threshold(0, 0));
    ops
}

/// The handlers of the interrupt lines `0..NUM_IRQ`; `F` is the type of a handler.
pub struct IrqHandlers<F> {
    handlers: [Option<F>; NUM_IRQ],
}

impl<F> View for IrqHandlers<F> {
    type V = Seq<Option<F>>;

    closed spec fn view(&self) -> Seq<Option<F>> {
        self.handlers@
    }
}

impl<F: Copy> IrqHandlers<F> {
    /// A table in which no line has a handler.
    pub fn new() -> (r: Self)
        ensures
            r@.len() == NUM_IRQ,
            forall|i: int| 0 <= i < NUM_IRQ ==> r@[i] is None,
    {
        IrqHandlers { handlers: [None; NUM_IRQ] }
    }

    /// The handler registered for line `irq`, if any.
    pub fn get(&self, irq: usize) -> (r: Option<F>)
        requires
            irq < NUM_IRQ,
        ensures
            r == self@[irq as int],
    {
        self.handlers[irq]
    }
}

/// Every handler table has one slot per interrupt line, `NUM_IRQ` in all.
pub broadcast proof fn lemma_irq_handlers_view_len<F>(handlers: IrqHandlers<F>)
    ensures
        #[trigger] handlers@.len() == NUM_IRQ,
{
}

/// What the platform interrupt handler does with the source that a claim returned.
pub enum IrqDispatch<F> {
    /// The claim returned 0: no interrupt is pending; nothing is completed.
    NoIrq,
    /// Run `handler`, then perform `complete`.
    Handle { handler: F, complete: RegAccess },
    /// No handler is registered for the source; perform `complete`.
    Unhandled { irq: u32, complete: RegAccess },
}

/// Registers `handler` for interrupt line `irq` and returns the register accesses
/// that prepare the line in context 0: its pending word is written back
/// (`clear_pending`), its enable bit is set, and its priority becomes 7.
pub fn register_handler<F: Copy>(
    handlers: &mut IrqHandlers<F>,
    plic: &Plic,
    irq: u32,
    handler: F,
) -> (r: Vec<RegAccess>)
    requires
        irq < NUM_IRQ,
    ensures
        final(handlers)@ == old(handlers)@.update(irq as int, Some(handler)),
        r@ == seq![
            plic.clear_pending_access(irq),
            plic.enable_access(irq, 0),
            plic.priority_write(irq, HANDLER_PRIORITY),
        ],
{
    let mut ops: Vec<RegAccess> = Vec::new();
    ops.push(plic.clear_pending(irq));
    handlers.handlers[irq as usize] = Some(handler);
    ops.push(plic.enable(irq, 0));
    ops.push(plic.set_priority(irq, HANDLER_PRIORITY));
    ops
}

/// What the platform interrupt handler does with source `irq`, claimed in context 0,
/// when the handler table is `handlers`.
pub open spec fn irq_dispatch<F>(handlers: Seq<Option<F>>, plic: Plic, irq: u32) -> IrqDispatch<F> {
    if irq == 0 {
        IrqDispatch::NoIrq
    } else {
        match handlers[irq as int] {
            Some(handler) => IrqDispatch::Handle { handler, complete: plic.complete_write(0, irq) },
            None => IrqDispatch::Unhandled { irq, complete: plic.complete_write(0, irq) },
        }
    }
}

/// Decides what to do with the source `irq` that a claim in context 0 returned:
/// nothing when it is 0; otherwise run the handler registered for it, if any, and
/// complete it in context 0.
pub fn platform_irq<F: Copy>(handlers: &IrqHandlers<F>, plic: &Plic, irq: u32) -> (r: IrqDispatch<F>)
    requires
        irq < NUM_IRQ,
    ensures
        r == irq_dispatch(handlers@, *plic, irq),
        irq == 0 <==> r is NoIrq,
        irq != 0 && handlers@[irq as int] is None ==> r == (IrqDispatch::<F>::Unhandled {
            irq,
            complete: RegAccess::Write { addr: plic.claim_reg(0) as usize, value: irq },
        }),
        irq != 0 && handlers@[irq as int] is Some ==> r == (IrqDispatch::Handle {
            handler: handlers@[irq as int]->Some_0,
            complete: RegAccess::Write { addr: plic.claim_reg(0) as usize, value: irq },
        }),
{
    if irq == 0 {
        return IrqDispatch::NoIrq;
    }
    match handlers.get(irq as usize) {
        Some(handler) => IrqDispatch::Handle { handler, complete: plic.complete(0, irq) },
        None => IrqDispatch::Unhandled { irq, complete: plic.complete(0, irq) },
    }
}

/// Enabling interrupt `source` in `context` updates the very word that `is_enabled`
/// tests, and whatever that word held before, the test then answers yes; disabling
/// it updates the same word, and the test then answers no.
pub proof fn lemma_enable_disable_then_is_enabled(plic: Plic, source: u32, context: usize, word: u32)
    requires
        plic.wf(),
        source < SOURCE_NUM,
        context < CONTEXT_NUM,
    ensures
        plic.enable_access(source, context).addr() == plic.enabled_test(source, context).addr,
        plic.disable_access(source, context).addr() == plic.enabled_test(source, context).addr,
        plic.enabled_test(source, context).holds(plic.enable_access(source, context).after(word)),
        !plic.enabled_test(source, context).holds(plic.disable_access(source, context).after(word)),
{
    let i = source % 32;
    crate::mmio::lemma_bit32_set_clear(word, i, i);
    assert(word & 0xffff_ffffu32 == word) by (bit_vector);
    assert((word & !crate::mmio::bit32(i)) | 0u32 == word & !crate::mmio::bit32(i)) by (bit_vector);
}

/// Enabling or disabling one source in one context leaves the enable bit of every
/// other source, in every context, as it was: either the other bit lives in another
/// register word, or the word is updated with that bit unchanged.
pub proof fn lemma_enable_disable_leave_others(
    plic: Plic,
    source: u32,
    context: usize,
    other: u32,
    other_context: usize,
    word: u32,
)
    requires
        plic.wf(),
        source < SOURCE_NUM,
        other < SOURCE_NUM,
        context < CONTEXT_NUM,
        other_context < CONTEXT_NUM,
        source != other || context != other_context,
    ensures
        plic.enable_access(source, context).addr() == plic.enabled_test(other, other_context).addr
            ==> plic.enabled_test(other, other_context).holds(plic.enable_access(source, context).after(word))
                == plic.enabled_test(other, other_context).holds(word),
        plic.disable_access(source, context).addr() == plic.enabled_test(other, other_context).addr
            ==> plic.enabled_test(other, other_context).holds(plic.disable_access(source, context).after(word))
                == plic.enabled_test(other, other_context).holds(word),
{
    let a = plic.enable_reg(source as int, context as int);
    let b = plic.enable_reg(other as int, other_context as int);
    if a == b {
        assert(context == other_context && group_of(source as int) == group_of(other as int));
        let i = source % 32;
        let j = other % 32;
        assert(i != j);
        crate::mmio::lemma_bit32_set_clear(word, i, j);
        assert(word & 0xffff_ffffu32 == word) by (bit_vector);
        assert((word & !crate::mmio::bit32(i)) | 0u32 == word & !crate::mmio::bit32(i)) by (bit_vector);
    }
}

/// The pending test and the write-back of `clear_pending` concern the same register
/// word; the write-back keeps the pending bit of `source` as it was read and sets
/// every other bit of the word.
pub proof fn lemma_clear_pending_effect(plic: Plic, source: u32, other: u32, word: u32)
    requires
        plic.wf(),
        source < SOURCE_NUM,
        other < SOURCE_NUM,
    ensures
        plic.clear_pending_access(source).addr() == plic.pending_test(source).addr,
        plic.pending_test(source).holds(plic.clear_pending_access(source).after(word))
            == plic.pending_test(source).holds(word),
        other != source && plic.pending_test(other).addr == plic.pending_test(source).addr
            ==> plic.pending_test(other).holds(plic.clear_pending_access(source).after(word)),
{
    let i = source % 32;
    let j = other % 32;
    assert(word & 0xffff_ffffu32 == word) by (bit_vector);
    assert(((word | !(1u32 << i)) & (1u32 << i) != 0) == (word & (1u32 << i) != 0)) by (bit_vector)
        requires
            i < 32,
    ;
    assert(i != j ==> (word | !(1u32 << i)) & (1u32 << j) != 0) by (bit_vector)
        requires
            i < 32,
            j < 32,
    ;
}

/// Each setter writes the register that the matching getter reads: the priority of a
/// source, the threshold of a context, and the claim/complete register of a context,
/// whose completion writes the source number itself.
pub proof fn lemma_setters_write_what_getters_read(
    plic: Plic,
    source: u32,
    context: usize,
    value: u32,
    word: u32,
)
    requires
        plic.wf(),
        source < SOURCE_NUM,
        context < CONTEXT_NUM,
    ensures
        plic.priority_write(source, value).addr() == plic.priority_read(source).addr(),
        plic.priority_write(source, value).after(word) == value,
        plic.threshold_write(context, value).addr() == plic.threshold_read(context).addr(),
        plic.threshold_write(context, value).after(word) == value,
        plic.complete_write(context, source).addr() == plic.claim_read(context).addr(),
        plic.complete_write(context, source).after(word) == source,
        plic.priority_read(source).after(word) == word,
{
}

/// Distinct sources have distinct priority registers, distinct contexts distinct
/// threshold and claim/complete registers, and no threshold register is a
/// claim/complete register.
pub proof fn lemma_registers_distinct(plic: Plic, s1: u32, s2: u32, c1: usize, c2: usize)
    requires
        plic.wf(),
        s1 < SOURCE_NUM,
        s2 < SOURCE_NUM,
        c1 < CONTEXT_NUM,
        c2 < CONTEXT_NUM,
    ensures
        s1 != s2 ==> plic.priority_read(s1).addr() != plic.priority_read(s2).addr(),
        c1 != c2 ==> plic.threshold_read(c1).addr() != plic.threshold_read(c2).addr(),
        c1 != c2 ==> plic.claim_read(c1).addr() != plic.claim_read(c2).addr(),
        plic.threshold_read(c1).addr() != plic.claim_read(c2).addr(),
{
}

/// After `register_handler` stored `handler` for line `irq` (not 0), the platform
/// interrupt handler runs that handler when a claim returns `irq`, and completes
/// `irq`; the handlers of all other lines are unchanged.
pub proof fn lemma_registered_handler_dispatched<F>(
    handlers: Seq<Option<F>>,
    plic: Plic,
    irq: u32,
    handler: F,
    other: u32,
)
    requires
        handlers.len() == NUM_IRQ,
        0 < irq < NUM_IRQ,
        other < NUM_IRQ,
        other != irq,
    ensures
        irq_dispatch(handlers.update(irq as int, Some(handler)), plic, irq) == (IrqDispatch::Handle {
            handler,
            complete: plic.complete_write(0, irq),
        }),
        irq_dispatch(handlers.update(irq as int, Some(handler)), plic, other) == irq_dispatch(handlers, plic, other),
{
}

/// Every claimed source other than 0 is completed in context 0 with its own number,
/// written to the claim/complete register of context 0: by running its handler when
/// one is registered, and by reporting it as unhandled when none is.  Only source 0
/// means that nothing was pending.
pub proof fn lemma_claimed_source_completed<F>(handlers: Seq<Option<F>>, plic: Plic, irq: u32)
    requires
        irq < NUM_IRQ,
    ensures
        (irq_dispatch(handlers, plic, irq) is NoIrq) == (irq == 0),
        irq != 0 && handlers[irq as int] is None ==> irq_dispatch(handlers, plic, irq) == (IrqDispatch::<F>::Unhandled {
            irq,
            complete: RegAccess::Write { addr: plic.claim_reg(0) as usize, value: irq },
        }),
        irq != 0 && handlers[irq as int] is Some ==> irq_dispatch(handlers, plic, irq) == (IrqDispatch::Handle {
            handler: handlers[irq as int]->Some_0,
            complete: RegAccess::Write { addr: plic.claim_reg(0) as usize, value: irq },
        }),
{
}

} // verus!
