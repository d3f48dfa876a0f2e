//! The mailbox used as a command queue: commands from the other core are answered
//! and kept in eight slots until the firmware fetches them.
use vstd::prelude::*;
use crate::config::{MAILBOX_REG_BASE, MAILBOX_REG_BUFF};
use crate::mmio::RegAccess;
use crate::device::mailbox::{
    CPU_MBOX_EN_BASE, CPU_MBOX_SET_BASE, CPU_MBOX_SET_STRIDE, MBOX_INT_CLR, MBOX_INT_MASK,
    MBOX_INT_STATUS, MBOX_SET_OFFSET,
};

verus! {

/// Number of mailbox channels, and of queue slots.
pub const MAILBOX_MAX_NUM: usize = 8;

/// Index of the "done" registers among the per-core registers.
pub const MAILBOX_DONE_OFFSET: usize = 2;

/// Offset of the message buffer from the mailbox registers.
pub const MAILBOX_CONTEXT_OFFSET: usize = 1024;

/// Index of this core among the per-core registers when receiving.
pub const RECEIVE_CPU: usize = 2;

/// Index of the other core among the per-core registers when sending.
pub const SEND_TO_CPU: usize = 1;

/// Bytes spanned by the mailbox register block.
pub const MAILBOX_SPAN: usize = 0x80;

/// Bytes of one command in the message buffer.
pub const CMDQU_SIZE: usize = 8;

/// Validity flags of a command, one per core.
#[derive(Debug, Clone, Copy, PartialEq, Eq, Structural)]
pub struct ValidT {
    pub linux_valid: u8,
    pub rtos_valid: u8,
}

/// A command in the message buffer.
#[derive(Debug, Clone, Copy, PartialEq, Eq, Structural)]
pub struct CmdquT {
    pub ip_id: u8,
    pub cmd_id: u8,
    pub valid: ValidT,
    pub param_ptr: i32,
}

impl Default for ValidT {
    fn default() -> (r: Self)
        ensures
            r == (ValidT { linux_valid: 0, rtos_valid: 0 }),
    {
        ValidT { linux_valid: 0, rtos_valid: 0 }
    }
}

impl CmdquT {
    /// The default command: every field 0.
    pub open spec fn default_spec() -> CmdquT {
        CmdquT { ip_id: 0, cmd_id: 0, valid: ValidT { linux_valid: 0, rtos_valid: 0 }, param_ptr: 0 }
    }
}

impl Default for CmdquT {
    fn default() -> (r: Self)
        ensures
            r == CmdquT::default_spec(),
    {
        CmdquT { ip_id: 0, cmd_id: 0, valid: ValidT::default(), param_ptr: 0 }
    }
}

/// The command as this core answers it: marked valid for this core, and its command
/// number shifted up by one bit (within the byte) with the low bit set.
pub open spec fn answered(data: CmdquT) -> CmdquT {
    CmdquT {
        ip_id: data.ip_id,
        cmd_id: (data.cmd_id << 1u8) | 1u8,
        valid: ValidT { linux_valid: data.valid.linux_valid, rtos_valid: 1 },
        param_ptr: data.param_ptr,
    }
}

/// The number of bits set among bits 0 to `n - 1` of `status`.
pub open spec fn bits_set_below(status: u32, n: nat) -> nat
    decreases n,
{
    if n == 0 {
        0
    } else {
        bits_set_below(status, (n - 1) as nat) + if status & (1u32 << ((n - 1) as u32)) != 0 {
            1nat
        } else {
            0nat
        }
    }
}

/// The register accesses that end receiving on `channel` of the mailbox at `base`:
/// the channel's interrupt towards core 2 is cleared, then the channel is taken out of
/// the enable register of core 2.
pub open spec fn receive_ops(base: int, channel: int) -> Seq<RegAccess> {
    seq![
        RegAccess::Write {
            addr: (base + crate::device::mailbox::cpu_mbox_set(RECEIVE_CPU as int) + MBOX_INT_CLR) as usize,
            value: crate::mmio::bit32(channel as u32),
        },
        RegAccess::Update {
            addr: (base + crate::device::mailbox::cpu_mbox_en(RECEIVE_CPU as int)) as usize,
            and_mask: !crate::mmio::bit32(channel as u32),
            or_mask: 0,
        },
    ]
}

/// The register accesses that end sending on `channel` of the mailbox at `base`: the
/// channel's interrupt towards core 1 is cleared, the channel is added to the enable
/// register of core 1, and raised in the mailbox set register.
pub open spec fn answer_ops(base: int, channel: int) -> Seq<RegAccess> {
    seq![
        RegAccess::Write {
            addr: (base + crate::device::mailbox::cpu_mbox_set(SEND_TO_CPU as int) + MBOX_INT_CLR) as usize,
            value: crate::mmio::bit32(channel as u32),
        },
        RegAccess::Update {
            addr: (base + crate::device::mailbox::cpu_mbox_en(SEND_TO_CPU as int)) as usize,
            and_mask: 0xffff_ffffu32,
            or_mask: crate::mmio::bit32(channel as u32),
        },
        RegAccess::Write { addr: (base + MBOX_SET_OFFSET) as usize, value: crate::mmio::bit32(channel as u32) },
    ]
}

/// The accesses that receive a command on a channel.
#[derive(Debug, PartialEq, Eq)]
pub struct CmdqRead {
    /// The address of the channel's command in the message buffer.
    pub slot: usize,
    /// How many times the command is read there; the last read is the command
    /// received, and with no read it is the default command.
    pub reads: usize,
    /// The register accesses that follow the reads.
    pub ops: Vec<RegAccess>,
}

/// The command received on a channel, from the values that the reads of its slot
/// returned, in order: the last of them, or the default command when there was no read.
pub fn received_command(reads: &Vec<CmdquT>) -> (r: CmdquT)
    ensures
        reads@.len() == 0 ==> r == (CmdquT {
            ip_id: 0,
            cmd_id: 0,
            valid: ValidT { linux_valid: 0, rtos_valid: 0 },
            param_ptr: 0,
        }),
        reads@.len() > 0 ==> r == reads@.last(),
{
    let mut data = CmdquT::default();
    let mut i: usize = 0;
    while i < reads.len()
        invariant
            i <= reads@.len(),
            i == 0 ==> data == CmdquT::default_spec(),
            i > 0 ==> data == reads@[i - 1],
        decreases reads@.len() - i,
    {
        data = reads[i];
        i = i + 1;
    }
    data
}

/// The accesses that send a command on a channel.
#[derive(Debug, PartialEq, Eq)]
pub struct CmdqWrite {
    /// The address of the channel's command in the message buffer.
    pub slot: usize,
    /// The command stored there.
    pub data: CmdquT,
    /// The register accesses that follow the store.
    pub ops: Vec<RegAccess>,
}

/// The mailbox, known by the base address of its registers.
pub struct MailBox(usize);

impl MailBox {
    /// The register block fits in the address space.
    #[verifier::type_invariant]
    pub closed spec fn wf(self) -> bool {
        self.0 + MAILBOX_SPAN <= usize::MAX
    }

    /// The base address of the mailbox registers.
    pub closed spec fn base(self) -> int {
        self.0 as int
    }

    /// The address of the register at `offset` from the base.
    pub open spec fn reg(self, offset: int) -> usize {
        (self.base() + offset) as usize
    }

    /// The address of the command of `channel` in the message buffer.
    pub open spec fn slot(channel: int) -> usize {
        (MAILBOX_REG_BUFF + CMDQU_SIZE * channel) as usize
    }

    /// A mailbox whose registers start at `base`.
    pub fn new(base: usize) -> (r: Self)
        requires
            base + MAILBOX_SPAN <= usize::MAX,
        ensures
            r.base() == base,
    {
        MailBox(base)
    }

    /// The address of the message buffer.
    pub fn mbox_content_reg(&self) -> (r: usize)
        ensures
            r == MAILBOX_REG_BUFF,
    {
        MAILBOX_REG_BUFF
    }

    /// Unmasks the interrupt of `channel` towards the other core: clears its bit in the
    /// mask register of core 1.
    pub fn enable(&self, channel: usize) -> (r: RegAccess)
        requires
            channel < 32,
        ensures
            r == (RegAccess::Update {
                addr: self.reg(crate::device::mailbox::cpu_mbox_set(SEND_TO_CPU as int) + MBOX_INT_MASK),
                and_mask: !crate::mmio::bit32(channel as u32),
                or_mask: 0,
            }),
    {
        proof { use_type_invariant(self); }
        RegAccess::Update { addr: self.0 + CPU_MBOX_SET_BASE + CPU_MBOX_SET_STRIDE * SEND_TO_CPU + MBOX_INT_MASK, and_mask: !(1u32 << (channel as u32)), or_mask: 0 }
    }

    /// The read of the interrupt status of core 2, which `read` examines.
    pub fn receive_status(&self) -> (r: RegAccess)
        ensures
            r == (RegAccess::Read { addr: self.reg(crate::device::mailbox::cpu_mbox_set(RECEIVE_CPU as int) + MBOX_INT_STATUS) }),
    {
        proof { use_type_invariant(self); }
        RegAccess::Read { addr: self.0 + CPU_MBOX_SET_BASE + CPU_MBOX_SET_STRIDE * RECEIVE_CPU + MBOX_INT_STATUS }
    }

    /// Receives the command on `channel` when the interrupt status of core 2 reads
    /// `status`: the command of the channel is read once per bit set among bits 0 to 7
    /// of `status`; then the channel's interrupt towards core 2 is cleared and the
    /// channel is taken out of the enable register of core 2.
    pub fn read(&self, channel: usize, status: u32) -> (r: CmdqRead)
        requires
            channel < 32,
        ensures
            r.slot == Self::slot(channel as int),
            r.reads == bits_set_below(status, MAILBOX_MAX_NUM as nat),
            r.ops@ == receive_ops(self.base(), channel as int),
    {
        proof { use_type_invariant(self); }
        let mut reads: usize = 0;
        let mut i: u32 = 0;
        while i < 8
            invariant
                i <= 8,
                reads == bits_set_below(status, i as nat),
                reads <= i,
            decreases 8 - i,
        {
            let valid_val = status & (1u32 << i);
            if valid_val != 0 {
                reads = reads + 1;
            }
            i = i + 1;
        }
        let bit = 1u32 << (channel as u32);
        let mut ops: Vec<RegAccess> = Vec::new();
        ops.push(RegAccess::Write { addr: self.0 + CPU_MBOX_SET_BASE + CPU_MBOX_SET_STRIDE * RECEIVE_CPU + MBOX_INT_CLR, value: bit });
        ops.push(RegAccess::Update { addr: self.0 + CPU_MBOX_EN_BASE + 4 * RECEIVE_CPU, and_mask: !bit, or_mask: 0 });
        CmdqRead { slot: self.mbox_content_reg() + CMDQU_SIZE * channel, reads, ops }
    }

    /// Sends `data` on `channel` as this core answers it (see `answered`): the command
    /// goes to the channel's slot; then the channel's interrupt towards core 1 is
    /// cleared, the channel is added to the enable register of core 1, and raised in
    /// the mailbox set register.
    pub fn write(&self, channel: usize, data: CmdquT) -> (r: CmdqWrite)
        requires
            channel < 32,
        ensures
            r.slot == Self::slot(channel as int),
            r.data == answered(data),
            r.ops@ == answer_ops(self.base(), channel as int),
    {
        proof { use_type_invariant(self); }
        let mut data = data;
        data.valid.rtos_valid = 1;
        data.cmd_id = data.cmd_id << 1u8 | 1u8;
        let bit = 1u32 << (channel as u32);
        let mut ops: Vec<RegAccess> = Vec::new();
        ops.push(RegAccess::Write { addr: self.0 + CPU_MBOX_SET_BASE + CPU_MBOX_SET_STRIDE * SEND_TO_CPU + MBOX_INT_CLR, value: bit });
        ops.push(RegAccess::Update { addr: self.0 + CPU_MBOX_EN_BASE + 4 * SEND_TO_CPU, and_mask: 0xffff_ffffu32, or_mask: bit });
        ops.push(RegAccess::Write { addr: self.0 + MBOX_SET_OFFSET, value: bit });
        CmdqWrite { slot: self.mbox_content_reg() + CMDQU_SIZE * channel, data, ops }
    }
}

/// The queue after `data` has been stored: every empty slot holds `data`, and every
/// occupied slot keeps its command.
pub open spec fn filled(queue: Seq<Option<CmdquT>>, data: CmdquT) -> Seq<Option<CmdquT>> {
    Seq::new(queue.len(), |i: int| if queue[i] is None { Some(data) } else { queue[i] })
}

/// Fetching from the slots `i` onwards: the first occupied slot gives up its command
/// and becomes empty; with no occupied slot, nothing is fetched and the queue stays.
pub open spec fn fetch_from(queue: Seq<Option<CmdquT>>, i: int) -> (Option<CmdquT>, Seq<Option<CmdquT>>)
    decreases queue.len() - i,
{
    if i < 0 || i >= queue.len() {
        (None, queue)
    } else if queue[i] is Some {
        (queue[i], queue.update(i, None))
    } else {
        fetch_from(queue, i + 1)
    }
}

/// The accesses that the mailbox interrupt handler makes around storing a command.
#[derive(Debug, PartialEq, Eq)]
pub struct HandlerPlan {
    /// Receiving on channel 0: the command is read from its slot, then these accesses.
    pub receive: CmdqRead,
    /// Answering on channel 0, after receiving.
    pub answer: CmdqWrite,
}

/// The mailbox interrupt handler, on the mailbox at `MAILBOX_REG_BASE`, when the
/// interrupt status of core 2 reads `status` and receiving on channel 0 produced
/// `received` (the last of the reads of the channel's slot, or the default command when
/// `status` made none): channel 0 is received and then answered with `received`, and
/// `received` itself, as read, goes into every empty slot of the queue.
pub fn mail_box_handler(
    queue: &mut [Option<CmdquT>; MAILBOX_MAX_NUM],
    status: u32,
    received: CmdquT,
) -> (r: HandlerPlan)
    ensures
        r.receive.slot == MailBox::slot(0),
        r.receive.reads == bits_set_below(status, MAILBOX_MAX_NUM as nat),
        r.receive.ops@ == receive_ops(MAILBOX_REG_BASE as int, 0),
        r.answer.slot == MailBox::slot(0),
        r.answer.data == answered(received),
        r.answer.ops@ == answer_ops(MAILBOX_REG_BASE as int, 0),
        final(queue)@ == filled(old(queue)@, received),
        forall|i: int| 0 <= i < MAILBOX_MAX_NUM && old(queue)@[i] is Some ==> final(queue)@[i] == old(queue)@[i],
        forall|i: int| 0 <= i < MAILBOX_MAX_NUM && old(queue)@[i] is None ==> final(queue)@[i] == Some(received),
{
    let mbox = MailBox::new(MAILBOX_REG_BASE);
    let receive = mbox.read(0, status);
    let answer = mbox.write(0, received);
    store(queue, received);
    HandlerPlan { receive, answer }
}

/// Stores `data` into every empty slot of the queue.
fn store(queue: &mut [Option<CmdquT>; MAILBOX_MAX_NUM], data: CmdquT)
    ensures
        final(queue)@ == filled(old(queue)@, data),
        forall|i: int| 0 <= i < MAILBOX_MAX_NUM && old(queue)@[i] is Some ==> final(queue)@[i] == old(queue)@[i],
        forall|i: int| 0 <= i < MAILBOX_MAX_NUM && old(queue)@[i] is None ==> final(queue)@[i] == Some(data),
{
    let ghost q0 = queue@;
    let mut i: usize = 0;
    while i < MAILBOX_MAX_NUM
        invariant
            i <= MAILBOX_MAX_NUM,
            q0.len() == MAILBOX_MAX_NUM,
            queue@.len() == MAILBOX_MAX_NUM,
            forall|k: int| 0 <= k < i ==> queue@[k] == filled(q0, data)[k],
            forall|k: int| i <= k < MAILBOX_MAX_NUM ==> queue@[k] == q0[k],
        decreases MAILBOX_MAX_NUM - i,
    {
        match queue[i] {
            None => {
                queue[i] = Some(data);
            },
            Some(_) => {},
        }
        i = i + 1;
    }
    assert(queue@ =~= filled(q0, data));
}

/// Takes the command out of the first occupied slot of the queue, if any.
pub fn mail_box_fetch(queue: &mut [Option<CmdquT>; MAILBOX_MAX_NUM]) -> (r: Option<CmdquT>)
    ensures
        r == fetch_from(old(queue)@, 0).0,
        final(queue)@ == fetch_from(old(queue)@, 0).1,
        (forall|i: int| 0 <= i < MAILBOX_MAX_NUM ==> #[trigger] old(queue)@[i] is None)
            ==> r is None && final(queue)@ == old(queue)@,
        forall|i: int| 0 <= i < MAILBOX_MAX_NUM && #[trigger] old(queue)@[i] is Some
            && (forall|j: int| 0 <= j < i ==> old(queue)@[j] is None)
            ==> r == old(queue)@[i] && final(queue)@ == old(queue)@.update(i, None),
{
    let ghost q0 = queue@;
    let mut i: usize = 0;
    while i < MAILBOX_MAX_NUM
        invariant
            i <= MAILBOX_MAX_NUM,
            queue@ == q0,
            q0 == old(queue)@,
            q0.len() == MAILBOX_MAX_NUM,
            fetch_from(q0, 0) == fetch_from(q0, i as int),
            forall|j: int| 0 <= j < i ==> #[trigger] q0[j] is None,
        decreases MAILBOX_MAX_NUM - i,
    {
        match queue[i] {
            None => {},
            Some(data) => {
                queue[i] = None;
                assert(queue@ =~= q0.update(i as int, None));
                return Some(data);
            },
        }
        i = i + 1;
    }
    None
}

/// An answered command is marked valid for this core and carries an odd command
/// number: twice the received one plus one, within the byte.  Its other fields are
/// those received.
pub proof fn lemma_answered(data: CmdquT)
    ensures
        answered(data).valid.rtos_valid == 1,
        answered(data).valid.linux_valid == data.valid.linux_valid,
        answered(data).ip_id == data.ip_id,
        answered(data).param_ptr == data.param_ptr,
        answered(data).cmd_id % 2 == 1,
        answered(data).cmd_id == (2 * data.cmd_id + 1) % 256,
{
    let c = data.cmd_id;
    assert(((c << 1u8) | 1u8) % 2 == 1) by (bit_vector);
    assert(((c << 1u8) | 1u8) == (2 * c + 1) % 256) by (bit_vector);
}

/// No command is read from the message buffer exactly when none of bits 0 to 7 of
/// the status is set; at most eight reads are made.
pub proof fn lemma_read_count(status: u32)
    ensures
        bits_set_below(status, MAILBOX_MAX_NUM as nat) <= MAILBOX_MAX_NUM,
        (bits_set_below(status, MAILBOX_MAX_NUM as nat) == 0) == (status & 0xffu32 == 0),
{
    lemma_bits_set_below_zero(status, 8);
    if status & 0xffu32 == 0 {
        assert forall|k: u32| k < 8 implies #[trigger] (status & (1u32 << k)) == 0 by {
            assert(status & (1u32 << k) == 0) by (bit_vector)
                requires
                    status & 0xffu32 == 0,
                    k < 8,
            ;
        }
    }
    if forall|k: u32| k < 8 ==> #[trigger] (status & (1u32 << k)) == 0 {
        assert(status & (1u32 << 0u32) == 0);
        assert(status & (1u32 << 1u32) == 0);
        assert(status & (1u32 << 2u32) == 0);
        assert(status & (1u32 << 3u32) == 0);
        assert(status & (1u32 << 4u32) == 0);
        assert(status & (1u32 << 5u32) == 0);
        assert(status & (1u32 << 6u32) == 0);
        assert(status & (1u32 << 7u32) == 0);
        assert(status & 0xffu32 == 0) by (bit_vector)
            requires
                status & (1u32 << 0u32) == 0,
                status & (1u32 << 1u32) == 0,
                status & (1u32 << 2u32) == 0,
                status & (1u32 << 3u32) == 0,
                status & (1u32 << 4u32) == 0,
                status & (1u32 << 5u32) == 0,
                status & (1u32 << 6u32) == 0,
                status & (1u32 << 7u32) == 0,
        ;
    }
}

proof fn lemma_bits_set_below_zero(status: u32, n: nat)
    requires
        n <= 32,
    ensures
        bits_set_below(status, n) <= n,
        (bits_set_below(status, n) == 0) == (forall|k: u32| k < n ==> #[trigger] (status & (1u32 << k)) == 0),
    decreases n,
{
    if n > 0 {
        lemma_bits_set_below_zero(status, (n - 1) as nat);
        let last = (n - 1) as u32;
        if status & (1u32 << last) != 0 {
            assert(!(forall|k: u32| k < n ==> #[trigger] (status & (1u32 << k)) == 0));
        } else if bits_set_below(status, (n - 1) as nat) == 0 {
            assert forall|k: u32| k < n implies #[trigger] (status & (1u32 << k)) == 0 by {
                if k < last {
                } else {
                    assert(k == last);
                }
            }
        }
    }
}

/// After a command is stored, the queue has no empty slot, and the next fetch takes
/// the command of slot 0: the one it held before, or the stored command when slot 0
/// was empty.  Storing into a queue with no empty slot changes nothing.
pub proof fn lemma_store_then_fetch(queue: Seq<Option<CmdquT>>, data: CmdquT)
    requires
        queue.len() == MAILBOX_MAX_NUM,
    ensures
        forall|i: int| 0 <= i < MAILBOX_MAX_NUM ==> #[trigger] filled(queue, data)[i] is Some,
        fetch_from(filled(queue, data), 0).0 == (if queue[0] is Some { queue[0] } else { Some(data) }),
        fetch_from(filled(queue, data), 0).1 == filled(queue, data).update(0, None),
        (forall|i: int| 0 <= i < MAILBOX_MAX_NUM ==> #[trigger] queue[i] is Some) ==> filled(queue, data) == queue,
{
    if forall|i: int| 0 <= i < MAILBOX_MAX_NUM ==> #[trigger] queue[i] is Some {
        assert(filled(queue, data) =~= queue);
    }
}

/// Fetching from a queue with no command returns nothing and leaves the queue as it
/// is; fetching from a queue with a command returns the command of the first occupied
/// slot, empties that slot, and leaves every other slot as it was.
pub proof fn lemma_fetch(queue: Seq<Option<CmdquT>>, i: int)
    requires
        0 <= i <= queue.len(),
        forall|j: int| 0 <= j < i ==> #[trigger] queue[j] is None,
    ensures
        (forall|j: int| i <= j < queue.len() ==> #[trigger] queue[j] is None)
            ==> fetch_from(queue, i) == (None::<CmdquT>, queue),
        i < queue.len() && queue[i] is Some ==> fetch_from(queue, 0) == (queue[i], queue.update(i, None)),
    decreases i,
{
    if i > 0 {
        lemma_fetch(queue, i - 1);
    }
    lemma_fetch_skips_empty(queue, 0, i);
    if forall|j: int| i <= j < queue.len() ==> #[trigger] queue[j] is None {
        lemma_fetch_empty_tail(queue, i);
    }
}

proof fn lemma_fetch_skips_empty(queue: Seq<Option<CmdquT>>, from: int, to: int)
    requires
        0 <= from <= to <= queue.len(),
        forall|j: int| from <= j < to ==> #[trigger] queue[j] is None,
    ensures
        fetch_from(queue, from) == fetch_from(queue, to),
    decreases to - from,
{
    if from < to {
        lemma_fetch_skips_empty(queue, from + 1, to);
    }
}

proof fn lemma_fetch_empty_tail(queue: Seq<Option<CmdquT>>, i: int)
    requires
        0 <= i <= queue.len(),
        forall|j: int| i <= j < queue.len() ==> #[trigger] queue[j] is None,
    ensures
        fetch_from(queue, i) == (None::<CmdquT>, queue),
    decreases queue.len() - i,
{
    if i < queue.len() {
        lemma_fetch_empty_tail(queue, i + 1);
    }
}

/// Storing a command never disturbs a pending one: every occupied slot keeps its
/// command, every empty slot receives the stored command, and the queue keeps its
/// length.
pub proof fn lemma_store_keeps_occupied(queue: Seq<Option<CmdquT>>, data: CmdquT)
    ensures
        filled(queue, data).len() == queue.len(),
        forall|i: int| 0 <= i < queue.len() && queue[i] is Some ==> #[trigger] filled(queue, data)[i] == queue[i],
        forall|i: int| 0 <= i < queue.len() && queue[i] is None ==> #[trigger] filled(queue, data)[i] == Some(data),
{
}

/// Answering on channel `c` touches exactly the bit of `c`: the interrupt clear
/// register and the set register receive `1 << c`, and the enable register of core 1
/// gets bit `c` set, whatever it held, with every other bit as it was.  Receiving on
/// `c` likewise writes `1 << c` to the clear register of core 2 and clears bit `c`,
/// and only that bit, in the enable register of core 2.
pub proof fn lemma_channel_ops_bits(base: int, c: u32, word: u32, j: u32)
    requires
        c < 32,
        j < 32,
    ensures
        answer_ops(base, c as int).len() == 3,
        answer_ops(base, c as int)[0].after(word) == 1u32 << c,
        answer_ops(base, c as int)[2].after(word) == 1u32 << c,
        (answer_ops(base, c as int)[1].after(word) & (1u32 << j) != 0) == (j == c || word & (1u32 << j) != 0),
        receive_ops(base, c as int).len() == 2,
        receive_ops(base, c as int)[0].after(word) == 1u32 << c,
        (receive_ops(base, c as int)[1].after(word) & (1u32 << j) != 0) == (j != c && word & (1u32 << j) != 0),
{
    assert((((word & 0xffff_ffffu32) | (1u32 << c)) & (1u32 << j) != 0) == (j == c || word & (1u32 << j) != 0))
        by (bit_vector)
        requires
            c < 32,
            j < 32,
    ;
    assert((((word & !(1u32 << c)) | 0u32) & (1u32 << j) != 0) == (j != c && word & (1u32 << j) != 0))
        by (bit_vector)
        requires
            c < 32,
            j < 32,
    ;
}

} // verus!
