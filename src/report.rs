//! The fault report, written into storage fixed before the fault.
//!
//! The fault handler runs in a context where memory allocation is not safe,
//! so the report is laid out in a byte array of fixed size that lives on the
//! handler's stack. Text that does not fit is cut off at the end.
use crate::fault::{label, label_spec, FaultKind};
use vstd::prelude::*;
use vstd::string::StringSliceAdditionalSpecFns;

verus! {

/// How many bytes a report holds.
pub const REPORT_CAPACITY: usize = 256;

/// `s`, cut off after `REPORT_CAPACITY` bytes.
pub open spec fn capped(s: Seq<u8>) -> Seq<u8> {
    if s.len() <= REPORT_CAPACITY {
        s
    } else {
        s.take(REPORT_CAPACITY as int)
    }
}

/// The ASCII lower-case hexadecimal digit of `d`, for `d < 16`.
pub open spec fn hex_digit(d: nat) -> u8 {
    if d < 10 {
        (48 + d) as u8
    } else {
        (87 + d) as u8
    }
}

/// The last `width` hexadecimal digits of `v`, most significant first,
/// padded with zeros.
pub open spec fn hex_of(v: nat, width: nat) -> Seq<u8>
    decreases width,
{
    if width == 0 {
        Seq::empty()
    } else {
        hex_of(v / 16, (width - 1) as nat).push(hex_digit(v % 16))
    }
}

/// The decimal digits of `v`, most significant first, without leading zeros.
pub open spec fn decimal_of(v: nat) -> Seq<u8>
    decreases v,
{
    if v < 10 {
        seq![(48 + v) as u8]
    } else {
        decimal_of(v / 10).push((48 + v % 10) as u8)
    }
}

/// An address as the report writes it: `0x` and sixteen hexadecimal digits.
pub open spec fn address_text(a: u64) -> Seq<u8> {
    seq![48u8, 120u8] + hex_of(a as nat, 16)
}

/// The first line of a fault report:
/// `fatal <class> at 0x<address> on thread <id>` and a line feed.
pub open spec fn header_text(k: FaultKind, address: u64, thread: u64) -> Seq<u8> {
    "fatal ".spec_bytes() + label_spec(k).spec_bytes() + " at ".spec_bytes() + address_text(
        address,
    ) + " on thread ".spec_bytes() + decimal_of(thread as nat) + seq![10u8]
}

/// The line of a report for frame number `index` of the backtrace:
/// `  #<index> 0x<address>` and a line feed.
pub open spec fn frame_text(index: u64, address: u64) -> Seq<u8> {
    "  #".spec_bytes() + decimal_of(index as nat) + seq![32u8] + address_text(address) + seq![
        10u8,
    ]
}

spec fn ten_to(n: nat) -> nat
    decreases n,
{
    if n == 0 {
        1
    } else {
        10 * ten_to((n - 1) as nat)
    }
}

proof fn lemma_hex_len(v: nat, width: nat)
    ensures
        hex_of(v, width).len() == width,
    decreases width,
{
    if width > 0 {
        lemma_hex_len(v / 16, (width - 1) as nat);
    }
}

proof fn lemma_decimal_len(v: nat, n: nat)
    requires
        n >= 1,
        v < ten_to(n),
    ensures
        decimal_of(v).len() <= n,
    decreases n,
{
    if v >= 10 {
        let m = (n - 1) as nat;
        if m == 0 {
            assert(ten_to(1) == 10 * ten_to(0));
        } else {
            let b = ten_to(m);
            assert(ten_to(n) == 10 * b);
            assert(v / 10 < b) by (nonlinear_arith)
                requires
                    v < 10 * b,
            ;
            lemma_decimal_len(v / 10, m);
        }
    }
}

proof fn lemma_label_len(k: FaultKind)
    ensures
        label_spec(k).spec_bytes().len() <= 32,
{
    match k {
        FaultKind::FloatDivideByZero => {
            reveal_strlit("floating-point divide by zero");
            vstd::string::is_ascii_spec_bytes("floating-point divide by zero");
        },
        FaultKind::FloatInvalid => {
            reveal_strlit("floating-point invalid operation");
            vstd::string::is_ascii_spec_bytes("floating-point invalid operation");
        },
        FaultKind::FloatOverflow => {
            reveal_strlit("floating-point overflow");
            vstd::string::is_ascii_spec_bytes("floating-point overflow");
        },
        FaultKind::FloatUnderflow => {
            reveal_strlit("floating-point underflow");
            vstd::string::is_ascii_spec_bytes("floating-point underflow");
        },
        FaultKind::FloatInexact => {
            reveal_strlit("floating-point inexact result");
            vstd::string::is_ascii_spec_bytes("floating-point inexact result");
        },
        FaultKind::FloatDenormal => {
            reveal_strlit("floating-point denormal operand");
            vstd::string::is_ascii_spec_bytes("floating-point denormal operand");
        },
        FaultKind::FloatMultiple => {
            reveal_strlit("floating-point exception");
            vstd::string::is_ascii_spec_bytes("floating-point exception");
        },
        FaultKind::IntegerDivideByZero => {
            reveal_strlit("integer divide by zero");
            vstd::string::is_ascii_spec_bytes("integer divide by zero");
        },
        FaultKind::IntegerOverflow => {
            reveal_strlit("integer overflow");
            vstd::string::is_ascii_spec_bytes("integer overflow");
        },
        FaultKind::Unknown => {
            reveal_strlit("arithmetic fault");
            vstd::string::is_ascii_spec_bytes("arithmetic fault");
        },
    }
}

/// The first line of a report always fits in it.
proof fn lemma_header_fits(k: FaultKind, address: u64, thread: u64)
    ensures
        header_text(k, address, thread).len() <= REPORT_CAPACITY,
{
    reveal_strlit("fatal ");
    vstd::string::is_ascii_spec_bytes("fatal ");
    reveal_strlit(" at ");
    vstd::string::is_ascii_spec_bytes(" at ");
    reveal_strlit(" on thread ");
    vstd::string::is_ascii_spec_bytes(" on thread ");
    lemma_label_len(k);
    lemma_hex_len(address as nat, 16);
    reveal_with_fuel(ten_to, 21);
    assert(ten_to(20) == 100000000000000000000nat);
    lemma_decimal_len(thread as nat, 20);
}

proof fn lemma_capped_push(a: Seq<u8>, b: u8)
    ensures
        capped(capped(a).push(b)) == capped(a.push(b)),
{
    if a.len() > REPORT_CAPACITY {
        assert(capped(a).push(b).take(REPORT_CAPACITY as int) =~= a.push(b).take(
            REPORT_CAPACITY as int,
        ));
    } else if a.len() == REPORT_CAPACITY {
        assert(a.push(b).take(REPORT_CAPACITY as int) =~= a);
    }
}

proof fn lemma_capped_append(a: Seq<u8>, s: Seq<u8>)
    ensures
        capped(capped(a) + s) == capped(a + s),
{
    if a.len() > REPORT_CAPACITY {
        assert((capped(a) + s).take(REPORT_CAPACITY as int) =~= (a + s).take(
            REPORT_CAPACITY as int,
        ));
    } else if a.len() == REPORT_CAPACITY {
        assert((a + s).take(REPORT_CAPACITY as int) =~= a);
        assert((capped(a) + s).take(REPORT_CAPACITY as int) =~= a);
    }
}

/// A report: a byte array of fixed size and how many of its bytes hold text.
pub struct Report {
    bytes: [u8; REPORT_CAPACITY],
    len: usize,
}

impl View for Report {
    type V = Seq<u8>;

    closed spec fn view(&self) -> Seq<u8> {
        self.bytes@.take(self.len as int)
    }
}

impl Report {
    #[verifier::type_invariant]
    closed spec fn fits(&self) -> bool {
        self.len <= REPORT_CAPACITY
    }

    /// An empty report.
    pub fn new() -> (r: Report)
        ensures
            r@ == Seq::<u8>::empty(),
    {
        let r = Report { bytes: [0u8; REPORT_CAPACITY], len: 0 };
        assert(r@ =~= Seq::<u8>::empty());
        r
    }

    /// How many bytes of text the report holds.
    pub fn len(&self) -> (n: usize)
        ensures
            n == self@.len(),
    {
        proof {
            use_type_invariant(self);
        }
        self.len
    }

    /// The report's storage; its first `len()` bytes are the text.
    pub fn storage(&self) -> (b: &[u8; REPORT_CAPACITY])
        ensures
            b@.take(self@.len() as int) == self@,
    {
        proof {
            use_type_invariant(self);
        }
        &self.bytes
    }

    /// The byte at `i` of the text.
    pub fn byte_at(&self, i: usize) -> (b: u8)
        requires
            i < self@.len(),
        ensures
            b == self@[i as int],
    {
        proof {
            use_type_invariant(self);
        }
        self.bytes[i]
    }

    /// Appends one byte, unless the report is full.
    pub fn push_byte(&mut self, b: u8)
        ensures
            final(self)@ == capped(old(self)@.push(b)),
    {
        proof {
            use_type_invariant(&*self);
        }
        if self.len < REPORT_CAPACITY {
            let n = self.len;
            self.bytes[n] = b;
            self.len = n + 1;
            assert(self@ =~= old(self)@.push(b));
        } else {
            assert(old(self)@.push(b).take(REPORT_CAPACITY as int) =~= old(self)@);
        }
    }

    /// Appends `s`, as far as it fits.
    pub fn push_bytes(&mut self, s: &[u8])
        ensures
            final(self)@ == capped(old(self)@ + s@),
    {
        proof {
            use_type_invariant(&*self);
            assert(old(self)@ + s@.take(0) =~= old(self)@);
        }
        let mut i: usize = 0;
        while i < s.len()
            invariant
                i <= s@.len(),
                self@ == capped(old(self)@ + s@.take(i as int)),
            decreases s@.len() - i,
        {
            proof {
                lemma_capped_push(old(self)@ + s@.take(i as int), s@[i as int]);
                assert((old(self)@ + s@.take(i as int)).push(s@[i as int]) =~= old(self)@
                    + s@.take(i + 1));
            }
            self.push_byte(s[i]);
            i = i + 1;
        }
        proof {
            assert(s@.take(s@.len() as int) =~= s@);
        }
    }

    /// Appends the last `width` hexadecimal digits of `v`.
    pub fn push_hex(&mut self, v: u64, width: usize)
        ensures
            final(self)@ == capped(old(self)@ + hex_of(v as nat, width as nat)),
        decreases width,
    {
        if width == 0 {
            proof {
                use_type_invariant(&*self);
                assert(old(self)@ + hex_of(v as nat, 0) =~= old(self)@);
            }
        } else {
            self.push_hex(v / 16, width - 1);
            let d = v % 16;
            let digit: u8 = if d < 10 {
                (48 + d) as u8
            } else {
                (87 + d) as u8
            };
            proof {
                let prefix = old(self)@ + hex_of((v / 16) as nat, (width - 1) as nat);
                lemma_capped_push(prefix, digit);
                assert(prefix.push(digit) =~= old(self)@ + hex_of(v as nat, width as nat));
            }
            self.push_byte(digit);
        }
    }

    /// Appends the decimal digits of `v`.
    pub fn push_decimal(&mut self, v: u64)
        ensures
            final(self)@ == capped(old(self)@ + decimal_of(v as nat)),
        decreases v,
    {
        let digit: u8 = (48 + v % 10) as u8;
        if v < 10 {
            proof {
                lemma_capped_push(old(self)@, digit);
                assert(old(self)@.push(digit) =~= old(self)@ + decimal_of(v as nat));
            }
            self.push_byte(digit);
        } else {
            self.push_decimal(v / 10);
            proof {
                let prefix = old(self)@ + decimal_of((v / 10) as nat);
                lemma_capped_push(prefix, digit);
                assert(prefix.push(digit) =~= old(self)@ + decimal_of(v as nat));
            }
            self.push_byte(digit);
        }
    }

    /// Appends an address as `0x` and sixteen hexadecimal digits.
    pub fn push_address(&mut self, a: u64)
        ensures
            final(self)@ == capped(old(self)@ + address_text(a)),
    {
        let ghost start = self@;
        self.push_byte(48u8);
        self.push_byte(120u8);
        proof {
            lemma_capped_push(start, 48u8);
            lemma_capped_push(start.push(48u8), 120u8);
        }
        let ghost mid = self@;
        self.push_hex(a, 16);
        proof {
            lemma_capped_append(start.push(48u8).push(120u8), hex_of(a as nat, 16));
            assert(start.push(48u8).push(120u8) + hex_of(a as nat, 16) =~= start + address_text(
                a,
            ));
        }
    }
    /// Appends the line of frame number `index` of a backtrace, the frame
    /// being given by its return address.
    pub fn push_frame(&mut self, index: u64, address: u64)
        ensures
            final(self)@ == capped(old(self)@ + frame_text(index, address)),
    {
        let ghost start = old(self)@;
        let ghost t1 = "  #".spec_bytes();
        let ghost t2 = decimal_of(index as nat);
        let ghost t3 = seq![32u8];
        let ghost t4 = address_text(address);
        self.push_bytes("  #".as_bytes());
        self.push_decimal(index);
        proof {
            lemma_capped_append(start + t1, t2);
        }
        self.push_byte(32u8);
        proof {
            lemma_capped_push(start + t1 + t2, 32u8);
            assert((start + t1 + t2).push(32u8) =~= start + t1 + t2 + t3);
        }
        self.push_address(address);
        proof {
            lemma_capped_append(start + t1 + t2 + t3, t4);
        }
        self.push_byte(10u8);
        proof {
            lemma_capped_push(start + t1 + t2 + t3 + t4, 10u8);
            assert((start + t1 + t2 + t3 + t4).push(10u8) =~= start + frame_text(index, address));
        }
    }
}

/// The report of a fault of class `k` at instruction address `address` on
/// thread `thread`, holding its whole first line.
pub fn fault_header(k: FaultKind, address: u64, thread: u64) -> (r: Report)
    ensures
        r@ == header_text(k, address, thread),
{
    let mut r = Report::new();
    let ghost t1 = "fatal ".spec_bytes();
    let ghost t2 = label_spec(k).spec_bytes();
    let ghost t3 = " at ".spec_bytes();
    let ghost t4 = address_text(address);
    let ghost t5 = " on thread ".spec_bytes();
    let ghost t6 = decimal_of(thread as nat);
    r.push_bytes("fatal ".as_bytes());
    proof {
        assert(Seq::<u8>::empty() + t1 =~= t1);
    }
    r.push_bytes(label(k).as_bytes());
    proof {
        lemma_capped_append(t1, t2);
    }
    r.push_bytes(" at ".as_bytes());
    proof {
        lemma_capped_append(t1 + t2, t3);
    }
    r.push_address(address);
    proof {
        lemma_capped_append(t1 + t2 + t3, t4);
    }
    r.push_bytes(" on thread ".as_bytes());
    proof {
        lemma_capped_append(t1 + t2 + t3 + t4, t5);
    }
    r.push_decimal(thread);
    proof {
        lemma_capped_append(t1 + t2 + t3 + t4 + t5, t6);
    }
    r.push_byte(10u8);
    proof {
        lemma_capped_push(t1 + t2 + t3 + t4 + t5 + t6, 10u8);
        assert((t1 + t2 + t3 + t4 + t5 + t6).push(10u8) =~= header_text(k, address, thread));
        lemma_header_fits(k, address, thread);
    }
    r
}

} // verus!
