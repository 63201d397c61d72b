use vstd::prelude::*;
use vstd::string::StringExecFns;

verus! {

/// Why a buffer could not be parsed as a supported binary format.
#[derive(Debug, Clone, Copy, PartialEq, Eq)]
pub enum ParseError {
    /// A read of `requested` bytes starting at `offset` does not fit in the
    /// `available` bytes of the buffer.
    Truncated { offset: u64, requested: u64, available: u64 },
    /// The buffer does not start with the DOS magic `"MZ"`.
    NotPe,
    /// The four bytes at `offset` (the value of `e_lfanew`) are not `"PE\0\0"`.
    BadSignature { offset: u64 },
    /// The COFF header's `Machine` field holds no known machine type.
    UnknownMachineType { value: u16 },
    /// The Optional Header's `Magic` field is none of PE32, PE32+ or ROM.
    UnknownOptionalHeaderMagic { value: u16 },
    /// The buffer is a PE image, but only other formats are reported.
    UnsupportedFormat,
}

/// The character of a digit `d < 16`, lower case for `d >= 10`.
pub open spec fn digit_char(d: nat) -> char {
    if d == 0 { '0' }
    else if d == 1 { '1' }
    else if d == 2 { '2' }
    else if d == 3 { '3' }
    else if d == 4 { '4' }
    else if d == 5 { '5' }
    else if d == 6 { '6' }
    else if d == 7 { '7' }
    else if d == 8 { '8' }
    else if d == 9 { '9' }
    else if d == 10 { 'a' }
    else if d == 11 { 'b' }
    else if d == 12 { 'c' }
    else if d == 13 { 'd' }
    else if d == 14 { 'e' }
    else { 'f' }
}

/// The digits of `n` in `base`, most significant first, without leading zeros
/// (`0` is written as a single digit).
pub open spec fn digits(n: nat, base: nat) -> Seq<char>
    recommends
        2 <= base <= 16,
    decreases n,
{
    if base < 2 || n < base {
        seq![digit_char(n)]
    } else {
        proof {
            assert(n / base < n) by (nonlinear_arith)
                requires
                    base >= 2,
                    n >= base,
            ;
        }
        digits(n / base, base).push(digit_char(n % base))
    }
}

/// Decimal notation of `n`, as `{}` prints it.
pub open spec fn decimal(n: nat) -> Seq<char> {
    digits(n, 10)
}

/// Hexadecimal notation of `n` with the `0x` prefix, as `{:#x}` prints it.
pub open spec fn hex(n: nat) -> Seq<char> {
    seq!['0', 'x'] + digits(n, 16)
}

impl ParseError {
    /// The human-readable description of the error.
    pub open spec fn spec_message(self) -> Seq<char> {
        match self {
            ParseError::Truncated { offset, requested, available } =>
                "expected "@ + decimal(requested as nat) + " bytes at offset "@ + hex(offset as nat)
                    + ", but only "@ + decimal(available as nat) + " bytes are available"@,
            ParseError::NotPe => "not a PE file"@,
            ParseError::BadSignature { offset } =>
                "expected PE signature at offset "@ + hex(offset as nat),
            ParseError::UnknownMachineType { value } =>
                "unknown PE machine type: "@ + hex(value as nat),
            ParseError::UnknownOptionalHeaderMagic { value } =>
                "unknown optional header magic: "@ + hex(value as nat),
            ParseError::UnsupportedFormat => "Unix or other binary formats are not supported"@,
        }
    }

    /// Renders the error as text.
    pub fn message(&self) -> (m: String)
        ensures
            m@ == self.spec_message(),
    {
        match self {
            ParseError::Truncated { offset, requested, available } => {
                let mut m = String::from_str("expected ");
                push_digits(&mut m, *requested, 10);
                m.append(" bytes at offset 0x");
                push_digits(&mut m, *offset, 16);
                m.append(", but only ");
                push_digits(&mut m, *available, 10);
                m.append(" bytes are available");
                proof {
                    reveal_strlit(" bytes at offset 0x");
                    reveal_strlit(" bytes at offset ");
                    assert(" bytes at offset 0x"@ =~= " bytes at offset "@ + seq!['0', 'x']);
                }
                assert(m@ =~= self.spec_message());
                m
            },
            ParseError::NotPe => String::from_str("not a PE file"),
            ParseError::BadSignature { offset } => {
                let mut m = String::from_str("expected PE signature at offset 0x");
                push_digits(&mut m, *offset, 16);
                proof {
                    reveal_strlit("expected PE signature at offset 0x");
                    reveal_strlit("expected PE signature at offset ");
                    assert("expected PE signature at offset 0x"@
                        =~= "expected PE signature at offset "@ + seq!['0', 'x']);
                }
                assert(m@ =~= self.spec_message());
                m
            },
            ParseError::UnknownMachineType { value } => {
                let mut m = String::from_str("unknown PE machine type: 0x");
                push_digits(&mut m, *value as u64, 16);
                proof {
                    reveal_strlit("unknown PE machine type: 0x");
                    reveal_strlit("unknown PE machine type: ");
                    assert("unknown PE machine type: 0x"@
                        =~= "unknown PE machine type: "@ + seq!['0', 'x']);
                }
                assert(m@ =~= self.spec_message());
                m
            },
            ParseError::UnknownOptionalHeaderMagic { value } => {
                let mut m = String::from_str("unknown optional header magic: 0x");
                push_digits(&mut m, *value as u64, 16);
                proof {
                    reveal_strlit("unknown optional header magic: 0x");
                    reveal_strlit("unknown optional header magic: ");
                    assert("unknown optional header magic: 0x"@
                        =~= "unknown optional header magic: "@ + seq!['0', 'x']);
                }
                assert(m@ =~= self.spec_message());
                m
            },
            ParseError::UnsupportedFormat => String::from_str(
                "Unix or other binary formats are not supported",
            ),
        }
    }
}

/// The one-character string of the digit `d`.
fn digit_str(d: u64) -> (s: &'static str)
    requires
        d < 16,
    ensures
        s@ == seq![digit_char(d as nat)],
{
    if d == 0 { proof { reveal_strlit("0"); } "0" }
    else if d == 1 { proof { reveal_strlit("1"); } "1" }
    else if d == 2 { proof { reveal_strlit("2"); } "2" }
    else if d == 3 { proof { reveal_strlit("3"); } "3" }
    else if d == 4 { proof { reveal_strlit("4"); } "4" }
    else if d == 5 { proof { reveal_strlit("5"); } "5" }
    else if d == 6 { proof { reveal_strlit("6"); } "6" }
    else if d == 7 { proof { reveal_strlit("7"); } "7" }
    else if d == 8 { proof { reveal_strlit("8"); } "8" }
    else if d == 9 { proof { reveal_strlit("9"); } "9" }
    else if d == 10 { proof { reveal_strlit("a"); } "a" }
    else if d == 11 { proof { reveal_strlit("b"); } "b" }
    else if d == 12 { proof { reveal_strlit("c"); } "c" }
    else if d == 13 { proof { reveal_strlit("d"); } "d" }
    else if d == 14 { proof { reveal_strlit("e"); } "e" }
    else { proof { reveal_strlit("f"); } "f" }
}

/// Appends the digits of `n` in `base` to `s`.
fn push_digits(s: &mut String, n: u64, base: u64)
    requires
        base == 10 || base == 16,
    ensures
        final(s)@ == old(s)@ + digits(n as nat, base as nat),
    decreases n,
{
    if n >= base {
        push_digits(s, n / base, base);
    }
    s.append(digit_str(n % base));
    assert(s@ =~= old(s)@ + digits(n as nat, base as nat));
}

} // verus!
