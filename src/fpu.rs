//! Control words of the x86 floating-point units.
//!
//! A set mask bit keeps an exception class silent; a clear one makes the CPU
//! fault when that class occurs. Enabling traps clears the divide-by-zero and
//! invalid-operation mask bits and leaves every other bit as it was.
use vstd::prelude::*;

verus! {

/// The exception classes that the control registers can mask.
#[derive(Clone, Copy, Debug, PartialEq, Eq, Structural)]
pub enum FpException {
    InvalidOperation,
    Denormal,
    DivideByZero,
    Overflow,
    Underflow,
    Precision,
}

/// Mask bits of the SSE control and status register (MXCSR).
pub const MXCSR_INVALID_MASK: u32 = 0x0080;
pub const MXCSR_DENORMAL_MASK: u32 = 0x0100;
pub const MXCSR_DIVIDE_BY_ZERO_MASK: u32 = 0x0200;
pub const MXCSR_OVERFLOW_MASK: u32 = 0x0400;
pub const MXCSR_UNDERFLOW_MASK: u32 = 0x0800;
pub const MXCSR_PRECISION_MASK: u32 = 0x1000;
/// The MXCSR value a thread starts with: every class masked.
pub const MXCSR_DEFAULT: u32 = 0x1F80;
/// The two MXCSR bits that enabling clears.
pub const MXCSR_TRAP_BITS: u32 = 0x0280;

/// Mask bits of the x87 control word.
pub const X87_INVALID_MASK: u16 = 0x0001;
pub const X87_DENORMAL_MASK: u16 = 0x0002;
pub const X87_DIVIDE_BY_ZERO_MASK: u16 = 0x0004;
pub const X87_OVERFLOW_MASK: u16 = 0x0008;
pub const X87_UNDERFLOW_MASK: u16 = 0x0010;
pub const X87_PRECISION_MASK: u16 = 0x0020;
/// The x87 control word a thread starts with: every class masked.
pub const X87_DEFAULT: u16 = 0x037F;
/// The two x87 bits that enabling clears.
pub const X87_TRAP_BITS: u16 = 0x0005;

/// The classes that enabling unmasks.
pub open spec fn is_trap_class(e: FpException) -> bool {
    e == FpException::InvalidOperation || e == FpException::DivideByZero
}

pub open spec fn mxcsr_mask_bit(e: FpException) -> u32 {
    match e {
        FpException::InvalidOperation => MXCSR_INVALID_MASK,
        FpException::Denormal => MXCSR_DENORMAL_MASK,
        FpException::DivideByZero => MXCSR_DIVIDE_BY_ZERO_MASK,
        FpException::Overflow => MXCSR_OVERFLOW_MASK,
        FpException::Underflow => MXCSR_UNDERFLOW_MASK,
        FpException::Precision => MXCSR_PRECISION_MASK,
    }
}

pub open spec fn x87_mask_bit(e: FpException) -> u16 {
    match e {
        FpException::InvalidOperation => X87_INVALID_MASK,
        FpException::Denormal => X87_DENORMAL_MASK,
        FpException::DivideByZero => X87_DIVIDE_BY_ZERO_MASK,
        FpException::Overflow => X87_OVERFLOW_MASK,
        FpException::Underflow => X87_UNDERFLOW_MASK,
        FpException::Precision => X87_PRECISION_MASK,
    }
}

/// Whether an MXCSR value makes class `e` fault.
pub open spec fn mxcsr_traps_spec(w: u32, e: FpException) -> bool {
    w & mxcsr_mask_bit(e) == 0
}

/// Whether an x87 control word makes class `e` fault.
pub open spec fn x87_traps_spec(w: u16, e: FpException) -> bool {
    w & x87_mask_bit(e) == 0
}

/// The MXCSR value after enabling: the two trap bits cleared, the rest kept.
pub open spec fn mxcsr_unmasked(w: u32) -> u32 {
    w & !MXCSR_TRAP_BITS
}

/// The x87 control word after enabling: the two trap bits cleared, the rest
/// kept.
pub open spec fn x87_unmasked(w: u16) -> u16 {
    w & !X87_TRAP_BITS
}

proof fn lemma_mxcsr_bits(w: u32)
    ensures
        mxcsr_unmasked(w) & MXCSR_INVALID_MASK == 0,
        mxcsr_unmasked(w) & MXCSR_DIVIDE_BY_ZERO_MASK == 0,
        mxcsr_unmasked(w) & MXCSR_DENORMAL_MASK == w & MXCSR_DENORMAL_MASK,
        mxcsr_unmasked(w) & MXCSR_OVERFLOW_MASK == w & MXCSR_OVERFLOW_MASK,
        mxcsr_unmasked(w) & MXCSR_UNDERFLOW_MASK == w & MXCSR_UNDERFLOW_MASK,
        mxcsr_unmasked(w) & MXCSR_PRECISION_MASK == w & MXCSR_PRECISION_MASK,
        mxcsr_unmasked(w) & !MXCSR_TRAP_BITS == w & !MXCSR_TRAP_BITS,
        mxcsr_unmasked(mxcsr_unmasked(w)) == mxcsr_unmasked(w),
{
    assert(w & !0x0280u32 & 0x0080u32 == 0) by (bit_vector);
    assert(w & !0x0280u32 & 0x0200u32 == 0) by (bit_vector);
    assert(w & !0x0280u32 & 0x0100u32 == w & 0x0100u32) by (bit_vector);
    assert(w & !0x0280u32 & 0x0400u32 == w & 0x0400u32) by (bit_vector);
    assert(w & !0x0280u32 & 0x0800u32 == w & 0x0800u32) by (bit_vector);
    assert(w & !0x0280u32 & 0x1000u32 == w & 0x1000u32) by (bit_vector);
    assert(w & !0x0280u32 & !0x0280u32 == w & !0x0280u32) by (bit_vector);
}

proof fn lemma_x87_bits(w: u16)
    ensures
        x87_unmasked(w) & X87_INVALID_MASK == 0,
        x87_unmasked(w) & X87_DIVIDE_BY_ZERO_MASK == 0,
        x87_unmasked(w) & X87_DENORMAL_MASK == w & X87_DENORMAL_MASK,
        x87_unmasked(w) & X87_OVERFLOW_MASK == w & X87_OVERFLOW_MASK,
        x87_unmasked(w) & X87_UNDERFLOW_MASK == w & X87_UNDERFLOW_MASK,
        x87_unmasked(w) & X87_PRECISION_MASK == w & X87_PRECISION_MASK,
        x87_unmasked(w) & !X87_TRAP_BITS == w & !X87_TRAP_BITS,
        x87_unmasked(x87_unmasked(w)) == x87_unmasked(w),
{
    assert(w & !0x0005u16 & 0x0001u16 == 0) by (bit_vector);
    assert(w & !0x0005u16 & 0x0004u16 == 0) by (bit_vector);
    assert(w & !0x0005u16 & 0x0002u16 == w & 0x0002u16) by (bit_vector);
    assert(w & !0x0005u16 & 0x0008u16 == w & 0x0008u16) by (bit_vector);
    assert(w & !0x0005u16 & 0x0010u16 == w & 0x0010u16) by (bit_vector);
    assert(w & !0x0005u16 & 0x0020u16 == w & 0x0020u16) by (bit_vector);
    assert(w & !0x0005u16 & !0x0005u16 == w & !0x0005u16) by (bit_vector);
}

/// Clears the divide-by-zero and invalid-operation mask bits of an MXCSR
/// value and keeps every other bit.
pub fn unmask_mxcsr(w: u32) -> (r: u32)
    ensures
        r == mxcsr_unmasked(w),
        r & !MXCSR_TRAP_BITS == w & !MXCSR_TRAP_BITS,
        forall|e: FpException|
            #[trigger] mxcsr_traps_spec(r, e) == (is_trap_class(e) || mxcsr_traps_spec(w, e)),
{
    proof {
        lemma_mxcsr_bits(w);
    }
    w & !MXCSR_TRAP_BITS
}

/// Clears the divide-by-zero and invalid-operation mask bits of an x87
/// control word and keeps every other bit.
pub fn unmask_x87(w: u16) -> (r: u16)
    ensures
        r == x87_unmasked(w),
        r & !X87_TRAP_BITS == w & !X87_TRAP_BITS,
        forall|e: FpException|
            #[trigger] x87_traps_spec(r, e) == (is_trap_class(e) || x87_traps_spec(w, e)),
{
    proof {
        lemma_x87_bits(w);
    }
    w & !X87_TRAP_BITS
}

/// Whether an MXCSR value makes class `e` fault.
pub fn mxcsr_traps(w: u32, e: FpException) -> (r: bool)
    ensures
        r == mxcsr_traps_spec(w, e),
{
    let bit: u32 = match e {
        FpException::InvalidOperation => MXCSR_INVALID_MASK,
        FpException::Denormal => MXCSR_DENORMAL_MASK,
        FpException::DivideByZero => MXCSR_DIVIDE_BY_ZERO_MASK,
        FpException::Overflow => MXCSR_OVERFLOW_MASK,
        FpException::Underflow => MXCSR_UNDERFLOW_MASK,
        FpException::Precision => MXCSR_PRECISION_MASK,
    };
    w & bit == 0
}

/// Whether an x87 control word makes class `e` fault.
pub fn x87_traps(w: u16, e: FpException) -> (r: bool)
    ensures
        r == x87_traps_spec(w, e),
{
    let bit: u16 = match e {
        FpException::InvalidOperation => X87_INVALID_MASK,
        FpException::Denormal => X87_DENORMAL_MASK,
        FpException::DivideByZero => X87_DIVIDE_BY_ZERO_MASK,
        FpException::Overflow => X87_OVERFLOW_MASK,
        FpException::Underflow => X87_UNDERFLOW_MASK,
        FpException::Precision => X87_PRECISION_MASK,
    };
    w & bit == 0
}

/// Enabling twice leaves the registers as enabling once does.
pub proof fn lemma_unmask_idempotent(m: u32, c: u16)
    ensures
        mxcsr_unmasked(mxcsr_unmasked(m)) == mxcsr_unmasked(m),
        x87_unmasked(x87_unmasked(c)) == x87_unmasked(c),
{
    lemma_mxcsr_bits(m);
    lemma_x87_bits(c);
}

/// After enabling, divide-by-zero and invalid operations fault, while overflow,
/// underflow, precision loss and denormal results fault exactly when they did
/// before; from the start-up values they stay silent.
pub proof fn lemma_unmask_selective(m: u32, c: u16, e: FpException)
    ensures
        mxcsr_traps_spec(mxcsr_unmasked(m), e) == (is_trap_class(e) || mxcsr_traps_spec(m, e)),
        x87_traps_spec(x87_unmasked(c), e) == (is_trap_class(e) || x87_traps_spec(c, e)),
        mxcsr_traps_spec(mxcsr_unmasked(MXCSR_DEFAULT), e) == is_trap_class(e),
        x87_traps_spec(x87_unmasked(X87_DEFAULT), e) == is_trap_class(e),
{
    lemma_mxcsr_bits(m);
    lemma_x87_bits(c);
    assert(0x1F80u32 & 0x0100u32 != 0) by (bit_vector);
    assert(0x1F80u32 & 0x0400u32 != 0) by (bit_vector);
    assert(0x1F80u32 & 0x0800u32 != 0) by (bit_vector);
    assert(0x1F80u32 & 0x1000u32 != 0) by (bit_vector);
    assert(0x037Fu16 & 0x0002u16 != 0) by (bit_vector);
    assert(0x037Fu16 & 0x0008u16 != 0) by (bit_vector);
    assert(0x037Fu16 & 0x0010u16 != 0) by (bit_vector);
    assert(0x037Fu16 & 0x0020u16 != 0) by (bit_vector);
    lemma_mxcsr_bits(MXCSR_DEFAULT);
    lemma_x87_bits(X87_DEFAULT);
}

} // verus!
