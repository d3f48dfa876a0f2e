use duo_firmware::arch::plic::{
    parse_group_and_index, platform_irq, plic_init, register_handler,
    IrqDispatch, IrqHandlers, Plic,
};
use duo_firmware::mmio::{BitTest, RegAccess};

fn plic() -> Plic {
    Plic::new(0x7000_0000)
}

#[test]
fn parse_group_and_index_splits_source() {
    assert_eq!(parse_group_and_index(0), (0, 0));
    assert_eq!(parse_group_and_index(31), (0, 31));
    assert_eq!(parse_group_and_index(32), (1, 0));
    assert_eq!(parse_group_and_index(61), (1, 29));
    assert_eq!(parse_group_and_index(1023), (31, 31));
}

#[test]
fn priority_accesses() {
    let p = plic();
    assert_eq!(p.set_priority(5, 3), RegAccess::Write { addr: 0x7000_0014, value: 3 });
    assert_eq!(p.get_priority(5), RegAccess::Read { addr: 0x7000_0014 });
    assert_eq!(
        p.probe_priority_bits(1023),
        vec![
            RegAccess::Write { addr: 0x7000_0ffc, value: 0xffff_ffff },
            RegAccess::Read { addr: 0x7000_0ffc },
        ]
    );
}

#[test]
fn pending_accesses() {
    let p = plic();
    assert_eq!(p.is_pending(33), BitTest { addr: 0x7000_1004, mask: 2 });
    assert!(p.is_pending(33).test(0b10));
    assert!(!p.is_pending(33).test(0b01));
    let clear = p.clear_pending(33);
    assert_eq!(
        clear,
        RegAccess::Update { addr: 0x7000_1004, and_mask: 0xffff_ffff, or_mask: 0xffff_fffd }
    );
    // The bit of the source keeps its value; every other bit is set.
    assert_eq!(clear.new_value(0), 0xffff_fffd);
    assert_eq!(clear.new_value(2), 0xffff_ffff);
}

#[test]
fn enable_then_is_enabled() {
    let p = plic();
    let en = p.enable(61, 0);
    assert_eq!(
        en,
        RegAccess::Update { addr: 0x7000_2004, and_mask: 0xffff_ffff, or_mask: 1 << 29 }
    );
    let test = p.is_enabled(61, 0);
    assert_eq!(test, BitTest { addr: 0x7000_2004, mask: 1 << 29 });
    assert_eq!(en.addr(), test.addr);
    assert!(test.test(en.new_value(0)));
    assert!(test.test(en.new_value(0x1234)));
    assert_eq!(en.new_value(0x1234), 0x1234 | (1 << 29));
    let dis = p.disable(61, 0);
    assert_eq!(
        dis,
        RegAccess::Update { addr: 0x7000_2004, and_mask: !(1u32 << 29), or_mask: 0 }
    );
    assert!(!test.test(dis.new_value(0xffff_ffff)));
    assert_eq!(dis.new_value(0xffff_ffff), 0xdfff_ffff);
}

#[test]
fn enable_in_other_context() {
    let p = plic();
    assert_eq!(p.enable(61, 1).addr(), 0x7000_2084);
    assert_eq!(p.is_enabled(0, 15871).addr, 0x7000_2000 + 0x80 * 15871);
}

#[test]
fn enable_leaves_other_sources() {
    let p = plic();
    let en = p.enable(61, 0);
    let other = p.is_enabled(60, 0);
    assert_eq!(en.addr(), other.addr);
    assert!(!other.test(en.new_value(0)));
    assert!(other.test(en.new_value(1 << 28)));
}

#[test]
fn threshold_and_claim_accesses() {
    let p = plic();
    assert_eq!(p.get_threshold(1), RegAccess::Read { addr: 0x7020_1000 });
    assert_eq!(p.set_threshold(0, 7), RegAccess::Write { addr: 0x7020_0000, value: 7 });
    assert_eq!(
        p.probe_threshold_bits(2),
        vec![
            RegAccess::Write { addr: 0x7020_2000, value: 0xffff_ffff },
            RegAccess::Read { addr: 0x7020_2000 },
        ]
    );
    assert_eq!(p.claim(0), RegAccess::Read { addr: 0x7020_0004 });
    assert_eq!(p.complete(0, 61), RegAccess::Write { addr: 0x7020_0004, value: 61 });
}

#[test]
fn init_by_context_zeroes_threshold() {
    let mut p = plic();
    assert_eq!(p.init_by_context(2), RegAccess::Write { addr: 0x7020_2000, value: 0 });
    assert_eq!(
        plic_init(&mut p),
        vec![
            RegAccess::Write { addr: 0x7020_0000, value: 0 },
            RegAccess::Write { addr: 0x7020_0000, value: 0 },
        ]
    );
}

#[test]
fn register_handler_prepares_line() {
    let p = plic();
    let mut handlers: IrqHandlers<u32> = IrqHandlers::new();
    assert_eq!(handlers.get(61), None);
    let ops = register_handler(&mut handlers, &p, 61, 7);
    assert_eq!(
        ops,
        vec![
            RegAccess::Update { addr: 0x7000_1004, and_mask: 0xffff_ffff, or_mask: !(1u32 << 29) },
            RegAccess::Update { addr: 0x7000_2004, and_mask: 0xffff_ffff, or_mask: 1 << 29 },
            RegAccess::Write { addr: 0x7000_00f4, value: 7 },
        ]
    );
    assert_eq!(handlers.get(61), Some(7));
    assert_eq!(handlers.get(60), None);
}

#[test]
fn platform_irq_dispatches() {
    let p = plic();
    let mut handlers: IrqHandlers<u32> = IrqHandlers::new();
    register_handler(&mut handlers, &p, 61, 99);
    assert!(matches!(platform_irq(&handlers, &p, 0), IrqDispatch::NoIrq));
    match platform_irq(&handlers, &p, 61) {
        IrqDispatch::Handle { handler, complete } => {
            assert_eq!(handler, 99);
            assert_eq!(complete, RegAccess::Write { addr: 0x7020_0004, value: 61 });
        }
        _ => panic!("line 61 has a handler"),
    }
    match platform_irq(&handlers, &p, 5) {
        IrqDispatch::Unhandled { irq, complete } => {
            assert_eq!(irq, 5);
            assert_eq!(complete, RegAccess::Write { addr: 0x7020_0004, value: 5 });
        }
        _ => panic!("line 5 has no handler"),
    }
}
