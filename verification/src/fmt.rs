//! Human-readable formatting of byte counts.
//!
//! A byte count is printed as a whole number scaled to the largest
//! decimal unit below it, with the unit's suffix: `999 B`, `42 KB`,
//! `7 MB`, `3 GB`.

use vstd::prelude::*;

verus! {

/// The decimal digit character for `d`.
pub open spec fn spec_digit(d: int) -> char {
    if d == 0 {
        '0'
    } else if d == 1 {
        '1'
    } else if d == 2 {
        '2'
    } else if d == 3 {
        '3'
    } else if d == 4 {
        '4'
    } else if d == 5 {
        '5'
    } else if d == 6 {
        '6'
    } else if d == 7 {
        '7'
    } else if d == 8 {
        '8'
    } else {
        '9'
    }
}

/// The decimal digits of `n`, most significant first, with no leading
/// zeros (a single `'0'` for zero).
pub open spec fn spec_digits(n: nat) -> Seq<char>
    decreases n,
{
    if n < 10 {
        seq![spec_digit(n as int)]
    } else {
        spec_digits(n / 10).push(spec_digit((n % 10) as int))
    }
}

/// Relies on String::push: appends exactly the one character to the
/// end of the string.
#[verifier::external_body]
fn string_push(s: &mut String, c: char)
    ensures
        final(s)@ == old(s)@.push(c),
{
    s.push(c);
}

/// The character for one digit value.
fn digit_char(d: u64) -> (c: char)
    requires
        d < 10,
    ensures
        c == spec_digit(d as int),
{
    if d == 0 {
        '0'
    } else if d == 1 {
        '1'
    } else if d == 2 {
        '2'
    } else if d == 3 {
        '3'
    } else if d == 4 {
        '4'
    } else if d == 5 {
        '5'
    } else if d == 6 {
        '6'
    } else if d == 7 {
        '7'
    } else if d == 8 {
        '8'
    } else {
        '9'
    }
}

/// Appends the decimal digits of `n` to `out`.
fn push_decimal(n: u64, out: &mut String)
    ensures
        final(out)@ == old(out)@ + spec_digits(n as nat),
    decreases n,
{
    if n < 10 {
        string_push(out, digit_char(n));
        assert(out@ =~= old(out)@ + spec_digits(n as nat));
    } else {
        push_decimal(n / 10, out);
        string_push(out, digit_char(n % 10));
        assert(out@ =~= old(out)@ + spec_digits(n as nat));
    }
}

/// A byte count to be rendered with a decimal unit suffix.
#[derive(Clone, Copy, Debug, PartialEq, Eq, Structural)]
pub struct Bytes {
    pub bytes: usize,
}

/// The rendering of a byte count: the count scaled down to the
/// largest decimal unit below it, as a whole number, followed by that
/// unit's suffix.
pub open spec fn spec_format_bytes(n: nat) -> Seq<char> {
    if n < 1_000 {
        spec_digits(n) + seq![' ', 'B']
    } else if n < 1_000_000 {
        spec_digits(n / 1_000) + seq![' ', 'K', 'B']
    } else if n < 1_000_000_000 {
        spec_digits(n / 1_000_000) + seq![' ', 'M', 'B']
    } else {
        spec_digits(n / 1_000_000_000) + seq![' ', 'G', 'B']
    }
}

impl Bytes {
    pub fn new(bytes: usize) -> (b: Bytes)
        ensures
            b.bytes == bytes,
    {
        Bytes { bytes }
    }

    /// Renders the byte count.
    pub fn format(&self) -> (r: String)
        ensures
            r@ == spec_format_bytes(self.bytes as nat),
    {
        let mut out: String = String::new();
        let b: u64 = self.bytes as u64;
        if b < 1_000 {
            push_decimal(b, &mut out);
            string_push(&mut out, ' ');
            string_push(&mut out, 'B');
            assert(out@ =~= spec_format_bytes(self.bytes as nat));
        } else if b < 1_000_000 {
            push_decimal(b / 1_000, &mut out);
            string_push(&mut out, ' ');
            string_push(&mut out, 'K');
            string_push(&mut out, 'B');
            assert(out@ =~= spec_format_bytes(self.bytes as nat));
        } else if b < 1_000_000_000 {
            push_decimal(b / 1_000_000, &mut out);
            string_push(&mut out, ' ');
            string_push(&mut out, 'M');
            string_push(&mut out, 'B');
            assert(out@ =~= spec_format_bytes(self.bytes as nat));
        } else {
            push_decimal(b / 1_000_000_000, &mut out);
            string_push(&mut out, ' ');
            string_push(&mut out, 'G');
            string_push(&mut out, 'B');
            assert(out@ =~= spec_format_bytes(self.bytes as nat));
        }
        out
    }
}

} // verus!
