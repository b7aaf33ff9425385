//! Exception classes as the platforms report them to the fault handler.
//!
//! POSIX systems deliver a floating-point fault as `SIGFPE` with a code in
//! `si_code`, whose values differ from one system to the next; Windows
//! delivers a structured exception with a fixed code. Both are mapped to one
//! `FaultKind`. The handler reports the classes that enabling unmasks and
//! declines every other one, integer division by zero in particular.
use vstd::prelude::*;

verus! {

/// The class of a fault delivered to the handler.
#[derive(Clone, Copy, Debug, PartialEq, Eq, Structural)]
pub enum FaultKind {
    FloatDivideByZero,
    FloatInvalid,
    FloatOverflow,
    FloatUnderflow,
    FloatInexact,
    FloatDenormal,
    /// Several floating-point classes at once, as Windows reports SSE traps.
    FloatMultiple,
    IntegerDivideByZero,
    IntegerOverflow,
    Unknown,
}

/// The `si_code` values of `SIGFPE` on one POSIX system.
#[derive(Clone, Copy, Debug, PartialEq, Eq, Structural)]
pub struct SignalCodes {
    pub integer_divide: i32,
    pub integer_overflow: i32,
    pub float_divide: i32,
    pub float_overflow: i32,
    pub float_underflow: i32,
    pub float_inexact: i32,
    pub float_invalid: i32,
    pub float_subnormal: i32,
}

impl SignalCodes {
    /// The values of Linux (`FPE_INTDIV` through `FPE_FLTSUB`).
    pub fn linux() -> (c: SignalCodes)
        ensures
            c == (SignalCodes {
                integer_divide: 1,
                integer_overflow: 2,
                float_divide: 3,
                float_overflow: 4,
                float_underflow: 5,
                float_inexact: 6,
                float_invalid: 7,
                float_subnormal: 8,
            }),
    {
        SignalCodes {
            integer_divide: 1,
            integer_overflow: 2,
            float_divide: 3,
            float_overflow: 4,
            float_underflow: 5,
            float_inexact: 6,
            float_invalid: 7,
            float_subnormal: 8,
        }
    }

    /// The values of macOS (`FPE_FLTDIV` through `FPE_INTOVF`).
    pub fn darwin() -> (c: SignalCodes)
        ensures
            c == (SignalCodes {
                integer_divide: 7,
                integer_overflow: 8,
                float_divide: 1,
                float_overflow: 2,
                float_underflow: 3,
                float_inexact: 4,
                float_invalid: 5,
                float_subnormal: 6,
            }),
    {
        SignalCodes {
            integer_divide: 7,
            integer_overflow: 8,
            float_divide: 1,
            float_overflow: 2,
            float_underflow: 3,
            float_inexact: 4,
            float_invalid: 5,
            float_subnormal: 6,
        }
    }
}

/// The class that `si_code` value `code` stands for under `codes`.
pub open spec fn signal_kind_spec(code: i32, codes: SignalCodes) -> FaultKind {
    if code == codes.float_divide {
        FaultKind::FloatDivideByZero
    } else if code == codes.float_invalid {
        FaultKind::FloatInvalid
    } else if code == codes.float_overflow {
        FaultKind::FloatOverflow
    } else if code == codes.float_underflow {
        FaultKind::FloatUnderflow
    } else if code == codes.float_inexact {
        FaultKind::FloatInexact
    } else if code == codes.float_subnormal {
        FaultKind::FloatDenormal
    } else if code == codes.integer_divide {
        FaultKind::IntegerDivideByZero
    } else if code == codes.integer_overflow {
        FaultKind::IntegerOverflow
    } else {
        FaultKind::Unknown
    }
}

/// Classifies the `si_code` of a `SIGFPE`.
pub fn signal_fault_kind(code: i32, codes: &SignalCodes) -> (k: FaultKind)
    ensures
        k == signal_kind_spec(code, *codes),
{
    if code == codes.float_divide {
        FaultKind::FloatDivideByZero
    } else if code == codes.float_invalid {
        FaultKind::FloatInvalid
    } else if code == codes.float_overflow {
        FaultKind::FloatOverflow
    } else if code == codes.float_underflow {
        FaultKind::FloatUnderflow
    } else if code == codes.float_inexact {
        FaultKind::FloatInexact
    } else if code == codes.float_subnormal {
        FaultKind::FloatDenormal
    } else if code == codes.integer_divide {
        FaultKind::IntegerDivideByZero
    } else if code == codes.integer_overflow {
        FaultKind::IntegerOverflow
    } else {
        FaultKind::Unknown
    }
}

/// Windows exception codes of the arithmetic faults.
pub const STATUS_FLOAT_DENORMAL_OPERAND: u32 = 0xC000_008D;
pub const STATUS_FLOAT_DIVIDE_BY_ZERO: u32 = 0xC000_008E;
pub const STATUS_FLOAT_INEXACT_RESULT: u32 = 0xC000_008F;
pub const STATUS_FLOAT_INVALID_OPERATION: u32 = 0xC000_0090;
pub const STATUS_FLOAT_OVERFLOW: u32 = 0xC000_0091;
pub const STATUS_FLOAT_UNDERFLOW: u32 = 0xC000_0093;
pub const STATUS_INTEGER_DIVIDE_BY_ZERO: u32 = 0xC000_0094;
pub const STATUS_INTEGER_OVERFLOW: u32 = 0xC000_0095;
pub const STATUS_FLOAT_MULTIPLE_FAULTS: u32 = 0xC000_02B4;
pub const STATUS_FLOAT_MULTIPLE_TRAPS: u32 = 0xC000_02B5;

/// The class that Windows exception code `code` stands for.
pub open spec fn exception_kind_spec(code: u32) -> FaultKind {
    if code == STATUS_FLOAT_DIVIDE_BY_ZERO {
        FaultKind::FloatDivideByZero
    } else if code == STATUS_FLOAT_INVALID_OPERATION {
        FaultKind::FloatInvalid
    } else if code == STATUS_FLOAT_OVERFLOW {
        FaultKind::FloatOverflow
    } else if code == STATUS_FLOAT_UNDERFLOW {
        FaultKind::FloatUnderflow
    } else if code == STATUS_FLOAT_INEXACT_RESULT {
        FaultKind::FloatInexact
    } else if code == STATUS_FLOAT_DENORMAL_OPERAND {
        FaultKind::FloatDenormal
    } else if code == STATUS_FLOAT_MULTIPLE_FAULTS || code == STATUS_FLOAT_MULTIPLE_TRAPS {
        FaultKind::FloatMultiple
    } else if code == STATUS_INTEGER_DIVIDE_BY_ZERO {
        FaultKind::IntegerDivideByZero
    } else if code == STATUS_INTEGER_OVERFLOW {
        FaultKind::IntegerOverflow
    } else {
        FaultKind::Unknown
    }
}

/// Classifies the code of a Windows structured exception.
pub fn exception_fault_kind(code: u32) -> (k: FaultKind)
    ensures
        k == exception_kind_spec(code),
{
    if code == STATUS_FLOAT_DIVIDE_BY_ZERO {
        FaultKind::FloatDivideByZero
    } else if code == STATUS_FLOAT_INVALID_OPERATION {
        FaultKind::FloatInvalid
    } else if code == STATUS_FLOAT_OVERFLOW {
        FaultKind::FloatOverflow
    } else if code == STATUS_FLOAT_UNDERFLOW {
        FaultKind::FloatUnderflow
    } else if code == STATUS_FLOAT_INEXACT_RESULT {
        FaultKind::FloatInexact
    } else if code == STATUS_FLOAT_DENORMAL_OPERAND {
        FaultKind::FloatDenormal
    } else if code == STATUS_FLOAT_MULTIPLE_FAULTS || code == STATUS_FLOAT_MULTIPLE_TRAPS {
        FaultKind::FloatMultiple
    } else if code == STATUS_INTEGER_DIVIDE_BY_ZERO {
        FaultKind::IntegerDivideByZero
    } else if code == STATUS_INTEGER_OVERFLOW {
        FaultKind::IntegerOverflow
    } else {
        FaultKind::Unknown
    }
}

/// The classes the handler reports: the two that enabling unmasks, and a
/// Windows report of several floating-point traps, which with only those two
/// unmasked can only be one of them.
pub open spec fn is_handled_spec(k: FaultKind) -> bool {
    k == FaultKind::FloatDivideByZero || k == FaultKind::FloatInvalid || k
        == FaultKind::FloatMultiple
}

/// Whether the handler reports a fault of class `k` and ends the process;
/// otherwise it leaves the fault to the platform's default handling.
pub fn is_handled(k: FaultKind) -> (r: bool)
    ensures
        r == is_handled_spec(k),
{
    match k {
        FaultKind::FloatDivideByZero | FaultKind::FloatInvalid | FaultKind::FloatMultiple => true,
        _ => false,
    }
}

/// The words that name class `k` in a fault report.
pub open spec fn label_spec(k: FaultKind) -> &'static str {
    match k {
        FaultKind::FloatDivideByZero => "floating-point divide by zero",
        FaultKind::FloatInvalid => "floating-point invalid operation",
        FaultKind::FloatOverflow => "floating-point overflow",
        FaultKind::FloatUnderflow => "floating-point underflow",
        FaultKind::FloatInexact => "floating-point inexact result",
        FaultKind::FloatDenormal => "floating-point denormal operand",
        FaultKind::FloatMultiple => "floating-point exception",
        FaultKind::IntegerDivideByZero => "integer divide by zero",
        FaultKind::IntegerOverflow => "integer overflow",
        FaultKind::Unknown => "arithmetic fault",
    }
}

/// The words that name class `k` in a fault report.
pub fn label(k: FaultKind) -> (s: &'static str)
    ensures
        s == label_spec(k),
{
    match k {
        FaultKind::FloatDivideByZero => "floating-point divide by zero",
        FaultKind::FloatInvalid => "floating-point invalid operation",
        FaultKind::FloatOverflow => "floating-point overflow",
        FaultKind::FloatUnderflow => "floating-point underflow",
        FaultKind::FloatInexact => "floating-point inexact result",
        FaultKind::FloatDenormal => "floating-point denormal operand",
        FaultKind::FloatMultiple => "floating-point exception",
        FaultKind::IntegerDivideByZero => "integer divide by zero",
        FaultKind::IntegerOverflow => "integer overflow",
        FaultKind::Unknown => "arithmetic fault",
    }
}

/// Under every table of signal codes whose integer codes differ from its
/// floating-point ones, and on Windows, floating-point division by zero and
/// invalid operations are reported, while integer division by zero and
/// integer overflow are classes of their own, which the handler declines.
pub proof fn lemma_float_faults_reported(codes: SignalCodes)
    requires
        codes.integer_divide != codes.float_divide,
        codes.integer_divide != codes.float_invalid,
        codes.integer_divide != codes.float_overflow,
        codes.integer_divide != codes.float_underflow,
        codes.integer_divide != codes.float_inexact,
        codes.integer_divide != codes.float_subnormal,
    ensures
        is_handled_spec(signal_kind_spec(codes.float_divide, codes)),
        codes.float_invalid != codes.float_divide ==> signal_kind_spec(codes.float_invalid, codes)
            == FaultKind::FloatInvalid,
        is_handled_spec(signal_kind_spec(codes.float_invalid, codes)),
        is_handled_spec(exception_kind_spec(STATUS_FLOAT_DIVIDE_BY_ZERO)),
        is_handled_spec(exception_kind_spec(STATUS_FLOAT_INVALID_OPERATION)),
        signal_kind_spec(codes.integer_divide, codes) == FaultKind::IntegerDivideByZero,
        !is_handled_spec(signal_kind_spec(codes.integer_divide, codes)),
        exception_kind_spec(STATUS_INTEGER_DIVIDE_BY_ZERO) == FaultKind::IntegerDivideByZero,
        !is_handled_spec(exception_kind_spec(STATUS_INTEGER_DIVIDE_BY_ZERO)),
        !is_handled_spec(exception_kind_spec(STATUS_INTEGER_OVERFLOW)),
{
}

} // verus!
