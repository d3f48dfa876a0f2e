use duo_firmware::device::led::duo_led_control;
use duo_firmware::device::mailbox::cmd::{led_task, Opration, ValidT};
use duo_firmware::device::mailbox::{MailBox, Mailboxmsg};
use duo_firmware::device::pinmux::{fix_uart1, pinmux};
use duo_firmware::mmio::{ByteAccess, RegAccess};

#[test]
fn led_on_and_off() {
    assert_eq!(
        duo_led_control(true),
        vec![
            RegAccess::Write { addr: 0x0502_1004, value: 4 },
            RegAccess::Write { addr: 0x0502_1000, value: 4 },
        ]
    );
    assert_eq!(
        duo_led_control(false),
        vec![
            RegAccess::Write { addr: 0x0502_1004, value: 4 },
            RegAccess::Write { addr: 0x0502_1000, value: 0 },
        ]
    );
}

#[test]
fn pinmux_writes() {
    assert_eq!(pinmux(0x0300_1000, 5), RegAccess::Write { addr: 0x0300_1000, value: 5 });
    assert_eq!(
        fix_uart1(),
        vec![
            RegAccess::Write { addr: 0x0300_104c, value: 1 },
            RegAccess::Write { addr: 0x0300_1050, value: 1 },
        ]
    );
}

#[test]
fn led_task_decisions() {
    let mut cmd = Opration { ip_id: 0, cmd_id: 0x93, valid: ValidT::default(), param: 2 };
    assert_eq!(led_task(cmd), duo_led_control(true));
    cmd.param = 1;
    assert_eq!(led_task(cmd), duo_led_control(false));
    cmd.cmd_id = 0x10;
    assert_eq!(led_task(cmd), Vec::<RegAccess>::new());
    assert_eq!(led_task(Opration::default()), Vec::<RegAccess>::new());
}

fn mbox() -> MailBox<u32> {
    MailBox::new(0x0190_0000)
}

#[test]
fn mailbox_init_zeroes_message_words() {
    let ops = mbox().init();
    assert_eq!(ops.len(), 8);
    for (i, op) in ops.iter().enumerate() {
        assert_eq!(*op, RegAccess::Write { addr: 0x0190_0400 + 4 * i, value: 0 });
    }
}

#[test]
fn mailbox_register_and_unregister() {
    let mut m = mbox();
    for ch in 0..8 {
        assert_eq!(m.do_callback(ch), None);
    }
    m.mailbox_register(3, 42);
    assert_eq!(m.do_callback(3), Some(42));
    assert_eq!(m.do_callback(2), None);
    m.mailbox_register(8, 1);
    m.mailbox_register(-1, 1);
    for ch in 0..8 {
        if ch != 3 {
            assert_eq!(m.do_callback(ch), None);
        }
    }
    m.mailbox_unregister(3);
    assert_eq!(m.do_callback(3), None);
}

#[test]
fn mailbox_receive_mask() {
    let m = mbox();
    let dis = m.mailbox_disable_receive(3);
    assert_eq!(dis, ByteAccess::Update { addr: 0x0190_0024, and_mask: 0xff, or_mask: 8 });
    assert_eq!(dis.new_value(0x01), 0x09);
    let en = m.mailbox_enable_receive(3);
    assert_eq!(en, ByteAccess::Update { addr: 0x0190_0024, and_mask: 0xf7, or_mask: 0 });
    assert_eq!(en.new_value(0xff), 0xf7);
    assert_eq!(m.mailbox_disable_receive(9).new_value(0x5a), 0x5a);
    assert_eq!(m.mailbox_enable_receive(9).new_value(0x5a), 0x5a);
}

#[test]
fn mailbox_read_and_write() {
    let m = mbox();
    let mut msg = Mailboxmsg { data: 0, channel: 0 };
    let ops = m.mailbox_read(2, &mut msg);
    assert_eq!(msg, Mailboxmsg { data: 0x0190_0408, channel: 2 });
    assert_eq!(
        ops,
        vec![
            ByteAccess::Write { addr: 0x0190_0030, value: 4 },
            ByteAccess::Update { addr: 0x0190_0008, and_mask: 0xfb, or_mask: 0 },
        ]
    );
    assert_eq!(
        m.mailbox_write(&msg),
        vec![
            ByteAccess::Write { addr: 0x0190_0020, value: 4 },
            ByteAccess::Update { addr: 0x0190_0004, and_mask: 0xff, or_mask: 4 },
            ByteAccess::Write { addr: 0x0190_0060, value: 4 },
        ]
    );
}

#[test]
fn mailbox_isr_channels() {
    let m = mbox();
    assert_eq!(m.receive_status(), ByteAccess::Read { addr: 0x0190_0038 });
    let channels = |status: u8| -> Vec<i32> { m.mailbox_isr(status).services.iter().map(|s| s.channel).collect() };
    assert_eq!(channels(0b1010_0101), vec![0, 2, 5, 7]);
    assert_eq!(channels(0), Vec::<i32>::new());
    assert_eq!(channels(0xff), vec![0, 1, 2, 3, 4, 5, 6, 7]);
}

#[test]
fn mailbox_isr_serves_channels_in_order() {
    let mut m = mbox();
    for ch in 0..8 {
        m.mailbox_register(ch, 100 + ch as u32);
    }
    m.mailbox_unregister(7);
    let plan = m.mailbox_isr(0x81);
    assert_eq!(plan.ret, 0);
    assert_eq!(plan.services.len(), 2);
    let s0 = &plan.services[0];
    assert_eq!(s0.channel, 0);
    assert_eq!(s0.msg, Mailboxmsg { data: 0x0190_0400, channel: 0 });
    assert_eq!(
        s0.receive,
        vec![
            ByteAccess::Write { addr: 0x0190_0030, value: 1 },
            ByteAccess::Update { addr: 0x0190_0008, and_mask: 0xfe, or_mask: 0 },
        ]
    );
    assert_eq!(
        s0.answer,
        vec![
            ByteAccess::Write { addr: 0x0190_0020, value: 1 },
            ByteAccess::Update { addr: 0x0190_0004, and_mask: 0xff, or_mask: 1 },
            ByteAccess::Write { addr: 0x0190_0060, value: 1 },
        ]
    );
    assert_eq!(s0.callback, Some(100));
    let s7 = &plan.services[1];
    assert_eq!(s7.channel, 7);
    assert_eq!(s7.msg, Mailboxmsg { data: 0x0190_041c, channel: 7 });
    assert_eq!(s7.receive[0], ByteAccess::Write { addr: 0x0190_0030, value: 0x80 });
    assert_eq!(s7.answer[2], ByteAccess::Write { addr: 0x0190_0060, value: 0x80 });
    assert_eq!(s7.callback, None);
}
