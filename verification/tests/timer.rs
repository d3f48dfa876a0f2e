use duo_firmware::arch::timer::Timer;
use duo_firmware::common::sleep::{sleep_ns_micros, usleep_deadline, usleep_done};
use duo_firmware::csr::{Csr, CsrOp};
use duo_firmware::mmio::RegAccess;

fn timer() -> Timer {
    Timer::new(0x7400_0000)
}

#[test]
fn setup_timer_writes_deadline_halves() {
    let t = timer().setup_timer(100, 5);
    assert_eq!(t.deadline, 105);
    assert_eq!(t.compare_low, RegAccess::Write { addr: 0x7400_4000, value: 105 });
    assert_eq!(t.compare_high, RegAccess::Write { addr: 0x7400_4004, value: 0 });
    assert_eq!(t.ack, CsrOp::ClearBits { csr: Csr::Mip, mask: 0x80 });
}

#[test]
fn setup_timer_crosses_32_bits() {
    let t = timer().setup_timer(1, 0xffff_ffff);
    assert_eq!(t.deadline, 0x1_0000_0000);
    assert_eq!(t.compare_low, RegAccess::Write { addr: 0x7400_4000, value: 0 });
    assert_eq!(t.compare_high, RegAccess::Write { addr: 0x7400_4004, value: 1 });
    let t = timer().setup_timer(0x1234_5678_9abc_def0, 0);
    assert_eq!(t.compare_low, RegAccess::Write { addr: 0x7400_4000, value: 0x9abc_def0 });
    assert_eq!(t.compare_high, RegAccess::Write { addr: 0x7400_4004, value: 0x1234_5678 });
}

#[test]
fn enable_timer_is_one_second_ahead() {
    let t = timer().enable_timer(10);
    assert_eq!(t.deadline, 25_000_010);
    assert_eq!(t.compare_low, RegAccess::Write { addr: 0x7400_4000, value: 25_000_010 });
    assert_eq!(t.compare_high, RegAccess::Write { addr: 0x7400_4004, value: 0 });
}

#[test]
fn disable_timer_sets_maximum() {
    let t = timer().disable_timer(0);
    assert_eq!(t.deadline, u64::MAX);
    assert_eq!(t.compare_low, RegAccess::Write { addr: 0x7400_4000, value: 0xffff_ffff });
    assert_eq!(t.compare_high, RegAccess::Write { addr: 0x7400_4004, value: 0xffff_ffff });
}

#[test]
fn usleep_waits_25_ticks_per_microsecond() {
    assert_eq!(usleep_deadline(100, 2), 150);
    assert_eq!(usleep_deadline(0, 1_000_000), 25_000_000);
    assert!(!usleep_done(150, 100));
    assert!(!usleep_done(150, 150));
    assert!(usleep_done(150, 151));
    assert!(usleep_done(150, u64::MAX));
}

#[test]
fn sleep_ns_counts_thousands() {
    assert_eq!(sleep_ns_micros(0), 0);
    assert_eq!(sleep_ns_micros(3), 3000);
}
