use duo_firmware::config::MAILBOX_REG_BUFF;
use duo_firmware::device::cmdq::{mail_box_fetch, mail_box_handler, received_command, CmdquT, MailBox, ValidT};
use duo_firmware::mmio::RegAccess;

fn cmd(id: u8) -> CmdquT {
    CmdquT { ip_id: 1, cmd_id: id, valid: ValidT { linux_valid: 1, rtos_valid: 0 }, param_ptr: 7 }
}

#[test]
fn cmdq_registers() {
    let m = MailBox::new(0x0190_0000);
    assert_eq!(m.mbox_content_reg(), MAILBOX_REG_BUFF);
    assert_eq!(m.enable(3), RegAccess::Update { addr: 0x0190_0024, and_mask: !8u32, or_mask: 0 });
    assert_eq!(m.receive_status(), RegAccess::Read { addr: 0x0190_0038 });
}

#[test]
fn cmdq_read_counts_status_bits() {
    let m = MailBox::new(0x0190_0000);
    let r = m.read(0, 0b101);
    assert_eq!(r.slot, 0x0190_0400);
    assert_eq!(r.reads, 2);
    assert_eq!(
        r.ops,
        vec![
            RegAccess::Write { addr: 0x0190_0030, value: 1 },
            RegAccess::Update { addr: 0x0190_0008, and_mask: !1u32, or_mask: 0 },
        ]
    );
    let r = m.read(1, 0x100);
    assert_eq!(r.slot, 0x0190_0408);
    assert_eq!(r.reads, 0);
    assert_eq!(m.read(0, 0xff).reads, 8);
}

#[test]
fn cmdq_write_answers_command() {
    let m = MailBox::new(0x0190_0000);
    let w = m.write(0, cmd(0x93));
    assert_eq!(w.slot, 0x0190_0400);
    assert_eq!(
        w.data,
        CmdquT { ip_id: 1, cmd_id: 0x27, valid: ValidT { linux_valid: 1, rtos_valid: 1 }, param_ptr: 7 }
    );
    assert_eq!(
        w.ops,
        vec![
            RegAccess::Write { addr: 0x0190_0020, value: 1 },
            RegAccess::Update { addr: 0x0190_0004, and_mask: 0xffff_ffff, or_mask: 1 },
            RegAccess::Write { addr: 0x0190_0060, value: 1 },
        ]
    );
    assert_eq!(m.write(2, cmd(0x80)).data.cmd_id, 0x01);
    assert_eq!(m.write(2, cmd(0x03)).data.cmd_id, 0x07);
}

#[test]
fn queue_store_fills_every_empty_slot() {
    let mut q: [Option<CmdquT>; 8] = [None; 8];
    q[2] = Some(cmd(5));
    mail_box_handler(&mut q, 0, cmd(9));
    for (i, slot) in q.iter().enumerate() {
        if i == 2 {
            assert_eq!(*slot, Some(cmd(5)));
        } else {
            assert_eq!(*slot, Some(cmd(9)));
        }
    }
    let full = q;
    mail_box_handler(&mut q, 0, cmd(1));
    assert_eq!(q, full);
}

#[test]
fn queue_fetch_takes_first_occupied_slot() {
    let mut q: [Option<CmdquT>; 8] = [None; 8];
    assert_eq!(mail_box_fetch(&mut q), None);
    assert_eq!(q, [None; 8]);
    q[3] = Some(cmd(3));
    q[6] = Some(cmd(6));
    assert_eq!(mail_box_fetch(&mut q), Some(cmd(3)));
    assert_eq!(q[3], None);
    assert_eq!(q[6], Some(cmd(6)));
    assert_eq!(mail_box_fetch(&mut q), Some(cmd(6)));
    assert_eq!(mail_box_fetch(&mut q), None);
}

#[test]
fn queue_store_then_fetch() {
    let mut q: [Option<CmdquT>; 8] = [None; 8];
    mail_box_handler(&mut q, 0, cmd(4));
    assert_eq!(mail_box_fetch(&mut q), Some(cmd(4)));
    assert_eq!(q[0], None);
    assert_eq!(q[1], Some(cmd(4)));
}

#[test]
fn handler_receives_answers_then_stores() {
    let mut q: [Option<CmdquT>; 8] = [None; 8];
    q[0] = Some(cmd(2));
    let plan = mail_box_handler(&mut q, 0b11, cmd(0x93));
    assert_eq!(plan.receive.slot, 0x0190_0400);
    assert_eq!(plan.receive.reads, 2);
    assert_eq!(
        plan.receive.ops,
        vec![
            RegAccess::Write { addr: 0x0190_0030, value: 1 },
            RegAccess::Update { addr: 0x0190_0008, and_mask: !1u32, or_mask: 0 },
        ]
    );
    assert_eq!(plan.answer.slot, 0x0190_0400);
    assert_eq!(plan.answer.data.cmd_id, 0x27);
    assert_eq!(plan.answer.data.valid.rtos_valid, 1);
    assert_eq!(
        plan.answer.ops,
        vec![
            RegAccess::Write { addr: 0x0190_0020, value: 1 },
            RegAccess::Update { addr: 0x0190_0004, and_mask: 0xffff_ffff, or_mask: 1 },
            RegAccess::Write { addr: 0x0190_0060, value: 1 },
        ]
    );
    assert_eq!(q[0], Some(cmd(2)));
    for slot in &q[1..] {
        assert_eq!(*slot, Some(cmd(0x93)));
    }
}

#[test]
fn received_command_is_last_read_or_default() {
    assert_eq!(received_command(&vec![]), CmdquT::default());
    assert_eq!(received_command(&vec![cmd(1)]), cmd(1));
    assert_eq!(received_command(&vec![cmd(1), cmd(2), cmd(3)]), cmd(3));
}
