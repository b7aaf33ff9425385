use batman::fpu::{
    mxcsr_traps, unmask_mxcsr, unmask_x87, x87_traps, FpException, MXCSR_DEFAULT, X87_DEFAULT,
};

const ALL: [FpException; 6] = [
    FpException::InvalidOperation,
    FpException::Denormal,
    FpException::DivideByZero,
    FpException::Overflow,
    FpException::Underflow,
    FpException::Precision,
];

#[test]
fn default_mxcsr_masks_everything() {
    for e in ALL {
        assert!(!mxcsr_traps(MXCSR_DEFAULT, e));
    }
}

#[test]
fn unmask_default_mxcsr() {
    assert_eq!(unmask_mxcsr(0x1F80), 0x1D00);
}

#[test]
fn unmask_default_x87() {
    assert_eq!(unmask_x87(0x037F), 0x037A);
}

#[test]
fn unmasked_mxcsr_traps_only_division_and_invalid() {
    let w = unmask_mxcsr(MXCSR_DEFAULT);
    assert!(mxcsr_traps(w, FpException::DivideByZero));
    assert!(mxcsr_traps(w, FpException::InvalidOperation));
    assert!(!mxcsr_traps(w, FpException::Overflow));
    assert!(!mxcsr_traps(w, FpException::Underflow));
    assert!(!mxcsr_traps(w, FpException::Precision));
    assert!(!mxcsr_traps(w, FpException::Denormal));
}

#[test]
fn unmasked_x87_traps_only_division_and_invalid() {
    let w = unmask_x87(X87_DEFAULT);
    assert!(x87_traps(w, FpException::DivideByZero));
    assert!(x87_traps(w, FpException::InvalidOperation));
    assert!(!x87_traps(w, FpException::Overflow));
    assert!(!x87_traps(w, FpException::Underflow));
    assert!(!x87_traps(w, FpException::Precision));
    assert!(!x87_traps(w, FpException::Denormal));
}

#[test]
fn unmask_is_idempotent() {
    let once = unmask_mxcsr(MXCSR_DEFAULT);
    assert_eq!(unmask_mxcsr(once), once);
    let once = unmask_x87(X87_DEFAULT);
    assert_eq!(unmask_x87(once), once);
}

#[test]
fn unmask_keeps_rounding_and_flush_bits() {
    // round toward zero, flush to zero, denormals are zero, a sticky flag
    let w: u32 = 0x1F80 | 0x6000 | 0x8000 | 0x0040 | 0x0001;
    let r = unmask_mxcsr(w);
    assert_eq!(r, w & !0x0280);
    assert_eq!(r & 0xE041, w & 0xE041);
    // precision control and rounding control of the x87 word
    let c: u16 = 0x0F7F;
    assert_eq!(unmask_x87(c), 0x0F7A);
}

#[test]
fn unmask_keeps_already_unmasked_overflow() {
    let w = MXCSR_DEFAULT & !0x0400;
    let r = unmask_mxcsr(w);
    assert!(mxcsr_traps(r, FpException::Overflow));
    assert!(!mxcsr_traps(r, FpException::Underflow));
}

#[test]
fn unmask_of_zero_word_is_zero() {
    assert_eq!(unmask_mxcsr(0), 0);
    assert_eq!(unmask_x87(0), 0);
    assert_eq!(unmask_mxcsr(u32::MAX), u32::MAX & !0x0280);
}
