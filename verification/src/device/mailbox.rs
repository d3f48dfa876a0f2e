//! The mailbox between the two cores, with a callback per channel.
pub mod cmd;

use vstd::prelude::*;
use crate::mmio::{ByteAccess, RegAccess};

verus! {

/// The interrupt line of the mailbox.
pub const MAIL_BOX_IRQ_NUM: u32 = 61;

/// Number of mailbox channels.
pub const MAILBOX_CHANNELS: usize = 8;

/// Address of the per-channel message words.
pub const MAILBOX_CONTEXT_BASE: usize = 0x1900400;

/// Bytes spanned by the mailbox register block.
pub const MAILBOX_SPAN: usize = 0x80;

/// Offset of the enable register of the mailbox towards core `i` (`cpu_mbox_en[i]`).
pub open spec fn cpu_mbox_en(i: int) -> int {
    CPU_MBOX_EN_BASE + 4 * i
}

/// Offset of the interrupt registers of core `i` (`cpu_mbox_set[i]`): clear at +0,
/// mask at +4, status at +8, raw status at +12.
pub open spec fn cpu_mbox_set(i: int) -> int {
    CPU_MBOX_SET_BASE + CPU_MBOX_SET_STRIDE * i
}

/// Offset of the register that raises the mailbox interrupt (`mbox_set`).
pub const MBOX_SET_OFFSET: usize = 0x60;

/// Offset of the first enable register (`cpu_mbox_en[0]`).
pub const CPU_MBOX_EN_BASE: usize = 0x00;

/// Offset of the first block of interrupt registers (`cpu_mbox_set[0]`).
pub const CPU_MBOX_SET_BASE: usize = 0x10;

/// Bytes of the interrupt registers of one core.
pub const CPU_MBOX_SET_STRIDE: usize = 0x10;

/// Offset of the interrupt clear register within the block of a core.
pub const MBOX_INT_CLR: usize = 0x0;

/// Offset of the interrupt mask register within the block of a core.
pub const MBOX_INT_MASK: usize = 0x4;

/// Offset of the interrupt status register within the block of a core.
pub const MBOX_INT_STATUS: usize = 0x8;

/// Core 1, to which this core sends.
pub const SEND_CORE: usize = 1;

/// Core 2, this core, which receives.
pub const RECEIVE_CORE: usize = 2;

/// The low byte of `1 << channel`: the bit of the channel for channels 0 to 7,
/// nothing for channels 8 to 31.
pub open spec fn channel_bit(channel: i32) -> u8 {
    if 0 <= channel < 8 {
        1u8 << (channel as u8)
    } else {
        0u8
    }
}

fn channel_byte(channel: i32) -> (r: u8)
    requires
        0 <= channel < 32,
    ensures
        r == channel_bit(channel),
{
    if channel < 8 {
        1u8 << (channel as u8)
    } else {
        0u8
    }
}

/// A message handed to a channel callback: the address of the channel's message
/// word and the channel.
#[derive(Debug, Clone, Copy, PartialEq, Eq, Structural)]
pub struct Mailboxmsg {
    pub data: usize,
    pub channel: i32,
}

/// Whether the bit of channel `c` is set in `status`.
pub open spec fn status_has(status: u8, c: int) -> bool {
    status & (1u8 << (c as u8)) != 0
}

/// The channels among 0 to `n - 1` whose bit is set in `status`, in increasing order.
pub open spec fn channels_below(status: u8, n: nat) -> Seq<i32>
    decreases n,
{
    if n == 0 {
        Seq::empty()
    } else {
        let rest = channels_below(status, (n - 1) as nat);
        if status & (1u8 << ((n - 1) as u8)) != 0 {
            rest.push((n - 1) as i32)
        } else {
            rest
        }
    }
}

/// How the interrupt service routine serves one channel, in this order: perform the
/// `receive` accesses, then the `answer` accesses, then run `callback` with `msg`; with
/// no callback, print that the channel is not registered.
pub struct ChannelService<F> {
    pub channel: i32,
    pub receive: Vec<ByteAccess>,
    pub msg: Mailboxmsg,
    pub answer: Vec<ByteAccess>,
    pub callback: Option<F>,
}

/// What the interrupt service routine does: serve the channels of `services`, in
/// order, and return `ret`.
pub struct IsrPlan<F> {
    pub services: Vec<ChannelService<F>>,
    pub ret: i32,
}

/// The mailbox, known by the base address of its registers, with a callback slot per
/// channel; `F` is the type of a callback.
pub struct MailBox<F> {
    mbox_reg: usize,
    mailbox_context: usize,
    callbacks: [Option<F>; MAILBOX_CHANNELS],
}

impl<F> View for MailBox<F> {
    type V = Seq<Option<F>>;

    /// The callbacks of channels 0 to 7.
    closed spec fn view(&self) -> Seq<Option<F>> {
        self.callbacks@
    }
}

impl<F> MailBox<F> {
    /// The register block fits in the address space, and the message words are those
    /// at `MAILBOX_CONTEXT_BASE`.
    #[verifier::type_invariant]
    pub closed spec fn wf(self) -> bool {
        &&& self.mbox_reg + MAILBOX_SPAN <= usize::MAX
        &&& self.mailbox_context == MAILBOX_CONTEXT_BASE
    }

    /// The base address of the mailbox registers.
    pub closed spec fn base(self) -> int {
        self.mbox_reg as int
    }

    /// The address of the byte register at `offset` from the base.
    pub open spec fn reg(self, offset: int) -> usize {
        (self.base() + offset) as usize
    }

    /// The address of the message word of `channel`.
    pub open spec fn message_word(channel: i32) -> usize {
        (MAILBOX_CONTEXT_BASE + 4 * channel) as usize
    }

    /// The message handed to the callback of `channel`.
    pub open spec fn channel_message(channel: i32) -> Mailboxmsg {
        Mailboxmsg { data: Self::message_word(channel), channel }
    }

    /// The accesses that receive on `channel` (`mailbox_read`): the channel's
    /// interrupt towards core 2 is cleared, then the channel is taken out of the enable
    /// register of core 2.
    pub open spec fn read_accesses(self, channel: i32) -> Seq<ByteAccess> {
        seq![
            ByteAccess::Write { addr: self.reg(cpu_mbox_set(RECEIVE_CORE as int) + MBOX_INT_CLR), value: channel_bit(channel) },
            ByteAccess::Update {
                addr: self.reg(cpu_mbox_en(RECEIVE_CORE as int)),
                and_mask: !channel_bit(channel),
                or_mask: 0,
            },
        ]
    }

    /// The accesses that send on `channel` (`mailbox_write`): the channel's interrupt
    /// towards core 1 is cleared, the channel is added to the enable register of core
    /// 1, and raised in the mailbox set register.
    pub open spec fn write_accesses(self, channel: i32) -> Seq<ByteAccess> {
        seq![
            ByteAccess::Write { addr: self.reg(cpu_mbox_set(SEND_CORE as int) + MBOX_INT_CLR), value: channel_bit(channel) },
            ByteAccess::Update {
                addr: self.reg(cpu_mbox_en(SEND_CORE as int)),
                and_mask: 0xff,
                or_mask: channel_bit(channel),
            },
            ByteAccess::Write { addr: self.reg(MBOX_SET_OFFSET as int), value: channel_bit(channel) },
        ]
    }

    /// Whether `service` is how the interrupt service routine serves `channel`: the
    /// receive accesses, the channel's message, the answer accesses, and the channel's
    /// callback, if one is registered.
    pub open spec fn serves(self, service: ChannelService<F>, channel: i32) -> bool {
        &&& service.channel == channel
        &&& service.receive@ == self.read_accesses(channel)
        &&& service.msg == Self::channel_message(channel)
        &&& service.answer@ == self.write_accesses(channel)
        &&& service.callback == self@[channel as int]
    }

    /// The update that masks the receive interrupt of `channel` (`disable_receive`).
    pub open spec fn disable_receive_access(self, channel: i32) -> ByteAccess {
        ByteAccess::Update { addr: self.reg(cpu_mbox_set(SEND_CORE as int) + MBOX_INT_MASK), and_mask: 0xff, or_mask: channel_bit(channel) }
    }

    /// The update that unmasks the receive interrupt of `channel` (`enable_receive`).
    pub open spec fn enable_receive_access(self, channel: i32) -> ByteAccess {
        ByteAccess::Update { addr: self.reg(cpu_mbox_set(SEND_CORE as int) + MBOX_INT_MASK), and_mask: !channel_bit(channel), or_mask: 0 }
    }
}

impl<F: Copy> MailBox<F> {
    /// A mailbox whose registers start at `base`, with no callbacks.
    pub fn new(base: usize) -> (r: Self)
        requires
            base + MAILBOX_SPAN <= usize::MAX,
        ensures
            r.base() == base,
            r@.len() == MAILBOX_CHANNELS,
            forall|i: int| 0 <= i < MAILBOX_CHANNELS ==> r@[i] is None,
    {
        MailBox { mbox_reg: base, mailbox_context: MAILBOX_CONTEXT_BASE, callbacks: [None; MAILBOX_CHANNELS] }
    }

    /// The writes that zero the message words of the eight channels, channel 0 first.
    pub fn init(&self) -> (r: Vec<RegAccess>)
        ensures
            r@.len() == MAILBOX_CHANNELS,
            forall|i: int| 0 <= i < MAILBOX_CHANNELS ==> r@[i] == (RegAccess::Write {
                addr: Self::message_word(i as i32),
                value: 0,
            }),
    {
        proof { use_type_invariant(self); }
        let mut ops: Vec<RegAccess> = Vec::new();
        let mut i: usize = 0;
        while i < MAILBOX_CHANNELS
            invariant
                i <= MAILBOX_CHANNELS,
                self.mailbox_context == MAILBOX_CONTEXT_BASE,
                ops@.len() == i,
                forall|k: int| 0 <= k < i ==> ops@[k] == (RegAccess::Write {
                    addr: Self::message_word(k as i32),
                    value: 0,
                }),
            decreases MAILBOX_CHANNELS - i,
        {
            ops.push(RegAccess::Write { addr: self.mailbox_context + 4 * i, value: 0u32 });
            i = i + 1;
        }
        ops
    }

    /// Registers `callback` for `channel`; a channel outside 0 to 7 is ignored.
    pub fn mailbox_register(&mut self, channel: i32, callback: F)
        ensures
            final(self).base() == old(self).base(),
            0 <= channel < MAILBOX_CHANNELS ==> final(self)@ == old(self)@.update(channel as int, Some(callback)),
            !(0 <= channel < MAILBOX_CHANNELS) ==> final(self)@ == old(self)@,
    {
        proof { use_type_invariant(&*self); }
        if channel >= 0 && channel < 8 {
            self.callbacks[channel as usize] = Some(callback);
        }
    }

    /// Removes the callback of `channel`; a channel outside 0 to 7 is ignored.
    pub fn mailbox_unregister(&mut self, channel: i32)
        ensures
            final(self).base() == old(self).base(),
            0 <= channel < MAILBOX_CHANNELS ==> final(self)@ == old(self)@.update(channel as int, None),
            !(0 <= channel < MAILBOX_CHANNELS) ==> final(self)@ == old(self)@,
    {
        proof { use_type_invariant(&*self); }
        if channel >= 0 && channel < 8 {
            self.callbacks[channel as usize] = None;
        }
    }

    /// The callback to run for a message on `channel`; without one, a warning that the
    /// channel is not registered is printed.
    pub fn do_callback(&self, channel: i32) -> (r: Option<F>)
        requires
            0 <= channel < MAILBOX_CHANNELS,
        ensures
            r == self@[channel as int],
    {
        self.callbacks[channel as usize]
    }

    /// Masks the receive interrupt of `channel`: sets its bit in the mask register of
    /// core 1 (channels 8 to 31 leave the byte register as it is).
    pub fn mailbox_disable_receive(&self, channel: i32) -> (r: ByteAccess)
        requires
            0 <= channel < 32,
        ensures
            r == self.disable_receive_access(channel),
    {
        proof { use_type_invariant(self); }
        ByteAccess::Update { addr: self.mbox_reg + CPU_MBOX_SET_BASE + CPU_MBOX_SET_STRIDE * SEND_CORE + MBOX_INT_MASK, and_mask: 0xffu8, or_mask: channel_byte(channel) }
    }

    /// Unmasks the receive interrupt of `channel`: clears its bit in the mask register
    /// of core 1 (channels 8 to 31 leave the byte register as it is).
    pub fn mailbox_enable_receive(&self, channel: i32) -> (r: ByteAccess)
        requires
            0 <= channel < 32,
        ensures
            r == self.enable_receive_access(channel),
    {
        proof { use_type_invariant(self); }
        ByteAccess::Update { addr: self.mbox_reg + CPU_MBOX_SET_BASE + CPU_MBOX_SET_STRIDE * SEND_CORE + MBOX_INT_MASK, and_mask: !channel_byte(channel), or_mask: 0u8 }
    }

    /// Receives on `channel`: `msg` becomes the channel and the address of its message
    /// word; the returned accesses clear the channel's interrupt towards core 2 and
    /// take the channel out of the enable register of core 2.
    pub fn mailbox_read(&self, channel: i32, msg: &mut Mailboxmsg) -> (r: Vec<ByteAccess>)
        requires
            0 <= channel < 32,
        ensures
            *final(msg) == Self::channel_message(channel),
            r@ == self.read_accesses(channel),
    {
        proof { use_type_invariant(self); }
        msg.channel = channel;
        msg.data = self.mailbox_context + 4 * (channel as usize);
        let bit = channel_byte(channel);
        let mut ops: Vec<ByteAccess> = Vec::new();
        ops.push(ByteAccess::Write { addr: self.mbox_reg + CPU_MBOX_SET_BASE + CPU_MBOX_SET_STRIDE * RECEIVE_CORE + MBOX_INT_CLR, value: bit });
        ops.push(ByteAccess::Update { addr: self.mbox_reg + CPU_MBOX_EN_BASE + 4 * RECEIVE_CORE, and_mask: !bit, or_mask: 0u8 });
        ops
    }

    /// Sends on the channel of `msg`: clears the channel's interrupt towards core 1,
    /// adds the channel to the enable register of core 1, and raises the channel in the
    /// mailbox set register.
    pub fn mailbox_write(&self, msg: &Mailboxmsg) -> (r: Vec<ByteAccess>)
        requires
            0 <= msg.channel < 32,
        ensures
            r@ == self.write_accesses(msg.channel),
    {
        proof { use_type_invariant(self); }
        let bit = channel_byte(msg.channel);
        let mut ops: Vec<ByteAccess> = Vec::new();
        ops.push(ByteAccess::Write { addr: self.mbox_reg + CPU_MBOX_SET_BASE + CPU_MBOX_SET_STRIDE * SEND_CORE + MBOX_INT_CLR, value: bit });
        ops.push(ByteAccess::Update { addr: self.mbox_reg + CPU_MBOX_EN_BASE + 4 * SEND_CORE, and_mask: 0xffu8, or_mask: bit });
        ops.push(ByteAccess::Write { addr: self.mbox_reg + MBOX_SET_OFFSET, value: bit });
        ops
    }

    /// The read of the interrupt status of core 2, whose bits name the channels that
    /// hold a message.
    pub fn receive_status(&self) -> (r: ByteAccess)
        ensures
            r == (ByteAccess::Read { addr: self.reg(cpu_mbox_set(RECEIVE_CORE as int) + MBOX_INT_STATUS) }),
    {
        proof { use_type_invariant(self); }
        ByteAccess::Read { addr: self.mbox_reg + CPU_MBOX_SET_BASE + CPU_MBOX_SET_STRIDE * RECEIVE_CORE + MBOX_INT_STATUS }
    }

    /// What the interrupt service routine does when the interrupt status of core 2
    /// reads `status`: it serves the channels among 0 to 7 whose bit is set, in
    /// increasing order, each by receiving (`mailbox_read`), answering
    /// (`mailbox_write`) and handing the channel's message to its callback
    /// (`do_callback`); then it returns 0.
    pub fn mailbox_isr(&self, status: u8) -> (r: IsrPlan<F>)
        ensures
            r.ret == 0,
            r.services@.len() == channels_below(status, MAILBOX_CHANNELS as nat).len(),
            forall|k: int| 0 <= k < r.services@.len()
                ==> self.serves(#[trigger] r.services@[k], channels_below(status, MAILBOX_CHANNELS as nat)[k]),
    {
        let mut services: Vec<ChannelService<F>> = Vec::new();
        let mut i: u8 = 0;
        while i < 8
            invariant
                i <= 8,
                services@.len() == channels_below(status, i as nat).len(),
                forall|k: int| 0 <= k < services@.len()
                    ==> self.serves(#[trigger] services@[k], channels_below(status, i as nat)[k]),
            decreases 8 - i,
        {
            proof { lemma_isr_channels(status, i as nat); }
            if status & (1u8 << i) != 0 {
                let channel = i as i32;
                let mut msg = Mailboxmsg { data: 0, channel: 0 };
                let receive = self.mailbox_read(channel, &mut msg);
                let answer = self.mailbox_write(&msg);
                let callback = self.do_callback(channel);
                services.push(ChannelService { channel, receive, msg, answer, callback });
            }
            i = i + 1;
        }
        IsrPlan { services, ret: 0 }
    }
}

/// The channels that the interrupt service routine serves are exactly the channels 0
/// to 7 whose bit is set in the status byte, each once, in increasing order.
pub proof fn lemma_isr_channels(status: u8, n: nat)
    requires
        n <= 8,
    ensures
        channels_below(status, n).len() <= n,
        forall|c: int| 0 <= c < n ==> (channels_below(status, n).contains(c as i32)
            <==> #[trigger] status_has(status, c)),
        forall|i: int| 0 <= i < channels_below(status, n).len() ==> 0 <= #[trigger] channels_below(status, n)[i] < n,
        forall|i: int, j: int| 0 <= i < j < channels_below(status, n).len()
            ==> channels_below(status, n)[i] < channels_below(status, n)[j],
    decreases n,
{
    if n > 0 {
        lemma_isr_channels(status, (n - 1) as nat);
        let rest = channels_below(status, (n - 1) as nat);
        let last = (n - 1) as i32;
        let ext = rest.push(last);
        assert forall|c: int| 0 <= c < n implies (channels_below(status, n).contains(c as i32)
            <==> #[trigger] status_has(status, c)) by {
            if status_has(status, n - 1) {
                assert(channels_below(status, n) == ext);
                if c < n - 1 {
                    if ext.contains(c as i32) {
                        let k = choose|k: int| 0 <= k < ext.len() && ext[k] == c as i32;
                        assert(k < rest.len());
                        assert(rest[k] == c as i32);
                    }
                    if rest.contains(c as i32) {
                        let k = choose|k: int| 0 <= k < rest.len() && rest[k] == c as i32;
                        assert(ext[k] == c as i32);
                    }
                } else {
                    assert(ext[rest.len() as int] == c as i32);
                }
            } else {
                assert(channels_below(status, n) == rest);
                if c == n - 1 && rest.contains(c as i32) {
                    let k = choose|k: int| 0 <= k < rest.len() && rest[k] == c as i32;
                    assert(0 <= rest[k] < n - 1);
                }
            }
        }
    }
}

/// Every mailbox has one callback slot per channel, eight in all.
pub broadcast proof fn lemma_mailbox_view_len<F>(mbox: MailBox<F>)
    ensures
        #[trigger] mbox@.len() == MAILBOX_CHANNELS,
{
}

/// A registered callback is the one run for its channel; after unregistering, no
/// callback runs for that channel; either way the other channels keep theirs.
/// Registering and then unregistering on a channel 0 to 7 leaves the table as it was
/// except that the channel has no callback (so exactly as it was when the channel had
/// none); on any other channel both leave the table as it was.
pub proof fn lemma_register_unregister<F>(mbox: MailBox<F>, channel: i32, other: i32, callback: F)
    requires
        0 <= other < MAILBOX_CHANNELS,
        other != channel,
    ensures
        0 <= channel < MAILBOX_CHANNELS ==> mbox@.update(channel as int, Some(callback))[channel as int] == Some(callback),
        0 <= channel < MAILBOX_CHANNELS ==> mbox@.update(channel as int, None)[channel as int] is None,
        0 <= channel < MAILBOX_CHANNELS ==> mbox@.update(channel as int, Some(callback))[other as int] == mbox@[other as int],
        0 <= channel < MAILBOX_CHANNELS ==> mbox@.update(channel as int, None)[other as int] == mbox@[other as int],
        0 <= channel < MAILBOX_CHANNELS ==> mbox@.update(channel as int, Some(callback)).update(channel as int, None)
            == mbox@.update(channel as int, None),
        0 <= channel < MAILBOX_CHANNELS && mbox@[channel as int] is None
            ==> mbox@.update(channel as int, Some(callback)).update(channel as int, None) == mbox@,
{
    lemma_mailbox_view_len(mbox);
    if 0 <= channel < MAILBOX_CHANNELS {
        assert(mbox@.update(channel as int, Some(callback)).update(channel as int, None)
            =~= mbox@.update(channel as int, None));
        if mbox@[channel as int] is None {
            assert(mbox@.update(channel as int, None) =~= mbox@);
        }
    }
}

/// Masking the receive interrupt of a channel 0 to 7 sets its bit in the mask byte and
/// unmasking clears it, both in the same register, whatever the byte held; the bits
/// of the other channels stay as they were.  For a channel 8 to 31 both leave the
/// byte as it was.
pub proof fn lemma_receive_mask<F>(mbox: MailBox<F>, channel: i32, other: i32, byte: u8)
    requires
        0 <= channel < 32,
        0 <= other < 8,
        other != channel,
    ensures
        mbox.disable_receive_access(channel).addr() == mbox.enable_receive_access(channel).addr(),
        channel < 8 ==> mbox.disable_receive_access(channel).after(byte) & channel_bit(channel) != 0,
        channel < 8 ==> mbox.enable_receive_access(channel).after(byte) & channel_bit(channel) == 0,
        mbox.disable_receive_access(channel).after(byte) & channel_bit(other) == byte & channel_bit(other),
        mbox.enable_receive_access(channel).after(byte) & channel_bit(other) == byte & channel_bit(other),
        channel >= 8 ==> mbox.disable_receive_access(channel).after(byte) == byte,
        channel >= 8 ==> mbox.enable_receive_access(channel).after(byte) == byte,
{
    let o = other as u8;
    if channel < 8 {
        let c = channel as u8;
        assert(((byte & 0xffu8) | (1u8 << c)) & (1u8 << c) != 0) by (bit_vector)
            requires
                c < 8,
        ;
        assert(((byte & !(1u8 << c)) | 0u8) & (1u8 << c) == 0) by (bit_vector)
            requires
                c < 8,
        ;
        assert(((byte & 0xffu8) | (1u8 << c)) & (1u8 << o) == byte & (1u8 << o)) by (bit_vector)
            requires
                c < 8,
                o < 8,
                c != o,
        ;
        assert(((byte & !(1u8 << c)) | 0u8) & (1u8 << o) == byte & (1u8 << o)) by (bit_vector)
            requires
                c < 8,
                o < 8,
                c != o,
        ;
    } else {
        assert((byte & 0xffu8) | 0u8 == byte) by (bit_vector);
        assert((byte & !0u8) | 0u8 == byte) by (bit_vector);
    }
}

/// Sending on channel `c` (0 to 7) touches exactly the bit of `c`: the interrupt
/// clear register of core 1 and the set register receive `1 << c`, and the enable
/// register of core 1 gets bit `c` set, whatever it held, with every other bit as it
/// was.  Receiving on `c` writes `1 << c` to the clear register of core 2 and clears
/// bit `c`, and only that bit, in the enable register of core 2.
pub proof fn lemma_channel_accesses_bits<F>(mbox: MailBox<F>, c: i32, byte: u8, j: u8)
    requires
        0 <= c < 8,
        j < 8,
    ensures
        mbox.write_accesses(c).len() == 3,
        mbox.write_accesses(c)[0].after(byte) == 1u8 << (c as u8),
        mbox.write_accesses(c)[2].after(byte) == 1u8 << (c as u8),
        (mbox.write_accesses(c)[1].after(byte) & (1u8 << j) != 0) == (j == c as u8 || byte & (1u8 << j) != 0),
        mbox.read_accesses(c).len() == 2,
        mbox.read_accesses(c)[0].after(byte) == 1u8 << (c as u8),
        (mbox.read_accesses(c)[1].after(byte) & (1u8 << j) != 0) == (j != c as u8 && byte & (1u8 << j) != 0),
{
    let cc = c as u8;
    assert((((byte & 0xffu8) | (1u8 << cc)) & (1u8 << j) != 0) == (j == cc || byte & (1u8 << j) != 0))
        by (bit_vector)
        requires
            cc < 8,
            j < 8,
    ;
    assert((((byte & !(1u8 << cc)) | 0u8) & (1u8 << j) != 0) == (j != cc && byte & (1u8 << j) != 0))
        by (bit_vector)
        requires
            cc < 8,
            j < 8,
    ;
}

} // verus!
