use batman::fault::{
    exception_fault_kind, is_handled, label, signal_fault_kind, FaultKind, SignalCodes,
};
use batman::report::{fault_header, Report, REPORT_CAPACITY};

fn text(r: &Report) -> String {
    String::from_utf8(r.storage()[..r.len()].to_vec()).unwrap()
}

#[test]
fn linux_codes_classify() {
    let c = SignalCodes::linux();
    assert_eq!(signal_fault_kind(3, &c), FaultKind::FloatDivideByZero);
    assert_eq!(signal_fault_kind(7, &c), FaultKind::FloatInvalid);
    assert_eq!(signal_fault_kind(1, &c), FaultKind::IntegerDivideByZero);
    assert_eq!(signal_fault_kind(4, &c), FaultKind::FloatOverflow);
    assert_eq!(signal_fault_kind(0, &c), FaultKind::Unknown);
}

#[test]
fn darwin_codes_classify() {
    let c = SignalCodes::darwin();
    assert_eq!(signal_fault_kind(1, &c), FaultKind::FloatDivideByZero);
    assert_eq!(signal_fault_kind(5, &c), FaultKind::FloatInvalid);
    assert_eq!(signal_fault_kind(7, &c), FaultKind::IntegerDivideByZero);
}

#[test]
fn windows_codes_classify() {
    assert_eq!(exception_fault_kind(0xC000_008E), FaultKind::FloatDivideByZero);
    assert_eq!(exception_fault_kind(0xC000_0090), FaultKind::FloatInvalid);
    assert_eq!(exception_fault_kind(0xC000_02B5), FaultKind::FloatMultiple);
    assert_eq!(exception_fault_kind(0xC000_0094), FaultKind::IntegerDivideByZero);
    assert_eq!(exception_fault_kind(0xC000_0005), FaultKind::Unknown);
}

#[test]
fn only_unmasked_float_classes_are_handled() {
    assert!(is_handled(FaultKind::FloatDivideByZero));
    assert!(is_handled(FaultKind::FloatInvalid));
    assert!(is_handled(FaultKind::FloatMultiple));
    assert!(!is_handled(FaultKind::IntegerDivideByZero));
    assert!(!is_handled(FaultKind::IntegerOverflow));
    assert!(!is_handled(FaultKind::FloatOverflow));
    assert!(!is_handled(FaultKind::FloatUnderflow));
    assert!(!is_handled(FaultKind::FloatInexact));
    assert!(!is_handled(FaultKind::FloatDenormal));
    assert!(!is_handled(FaultKind::Unknown));
}

#[test]
fn labels() {
    assert_eq!(label(FaultKind::FloatDivideByZero), "floating-point divide by zero");
    assert_eq!(label(FaultKind::FloatInvalid), "floating-point invalid operation");
}

#[test]
fn header_of_division_fault() {
    let r = fault_header(FaultKind::FloatDivideByZero, 0x5555_0000_1234_abcd, 42);
    assert_eq!(
        text(&r),
        "fatal floating-point divide by zero at 0x555500001234abcd on thread 42\n"
    );
}

#[test]
fn header_of_invalid_fault_with_extremes() {
    let r = fault_header(FaultKind::FloatInvalid, 0, u64::MAX);
    assert_eq!(
        text(&r),
        "fatal floating-point invalid operation at 0x0000000000000000 on thread 18446744073709551615\n"
    );
}

#[test]
fn frame_lines_follow_header() {
    let mut r = fault_header(FaultKind::FloatInvalid, 0xff, 0);
    r.push_frame(0, 0x7f00_dead_beef);
    r.push_frame(12, 1);
    assert_eq!(
        text(&r),
        "fatal floating-point invalid operation at 0x00000000000000ff on thread 0\n  #0 0x00007f00deadbeef\n  #12 0x0000000000000001\n"
    );
}

#[test]
fn report_is_cut_at_capacity() {
    let mut r = Report::new();
    assert_eq!(r.len(), 0);
    for i in 0..100 {
        r.push_frame(i, u64::MAX);
    }
    assert_eq!(r.len(), REPORT_CAPACITY);
    let t = text(&r);
    assert!(t.starts_with("  #0 0xffffffffffffffff\n  #1 0xffffffffffffffff\n"));
    r.push_byte(b'x');
    assert_eq!(r.len(), REPORT_CAPACITY);
    assert_eq!(r.byte_at(REPORT_CAPACITY - 1), t.as_bytes()[REPORT_CAPACITY - 1]);
}

#[test]
fn digits() {
    let mut r = Report::new();
    r.push_decimal(0);
    r.push_byte(b' ');
    r.push_decimal(1_000_000);
    r.push_byte(b' ');
    r.push_hex(0xabc, 4);
    r.push_byte(b' ');
    r.push_hex(0x12345, 2);
    r.push_byte(b' ');
    r.push_address(0x10);
    r.push_bytes(b"!");
    assert_eq!(text(&r), "0 1000000 0abc 45 0x0000000000000010!");
}
