//! Fixed-capacity text lines for the display.
//!
//! A line is a `heapless::String<32>`: it holds at most 32 bytes of UTF-8 and
//! refuses what would not fit. The contracts here speak of a line through
//! [`line_text`], the characters it holds, and measure it with [`byte_len`].

use core::fmt::Write;
use vstd::prelude::*;

verus! {

/// The number of bytes a display line can hold.
pub const LINE_CAPACITY: usize = 32;

/// `heapless::String`, taken as an opaque value.
#[verifier::external_type_specification]
#[verifier::external_body]
pub struct ExLineBuffer<const N: usize>(heapless::String<N>);

/// The characters that a line holds, in order.
pub uninterp spec fn line_text(line: heapless::String<32>) -> Seq<char>;

/// The number of bytes that `c` takes in UTF-8.
pub open spec fn utf8_width(c: char) -> nat {
    if (c as u32) < 0x80 {
        1
    } else if (c as u32) < 0x800 {
        2
    } else if (c as u32) < 0x10000 {
        3
    } else {
        4
    }
}

/// The number of bytes that `text` takes in UTF-8.
pub open spec fn byte_len(text: Seq<char>) -> nat
    decreases text.len(),
{
    if text.len() == 0 {
        0
    } else {
        byte_len(text.drop_last()) + utf8_width(text.last())
    }
}

/// The character that shows the digit `d`.
pub open spec fn digit_char(d: nat) -> char {
    if d == 0 {
        '0'
    } else if d == 1 {
        '1'
    } else if d == 2 {
        '2'
    } else if d == 3 {
        '3'
    } else if d == 4 {
        '4'
    } else if d == 5 {
        '5'
    } else if d == 6 {
        '6'
    } else if d == 7 {
        '7'
    } else if d == 8 {
        '8'
    } else {
        '9'
    }
}

/// `n` in decimal, without sign or leading zeros.
pub open spec fn decimal(n: nat) -> Seq<char>
    decreases n,
{
    if n < 10 {
        seq![digit_char(n)]
    } else {
        decimal(n / 10).push(digit_char(n % 10))
    }
}

/// True when every character of `text` is a single byte in UTF-8.
pub open spec fn single_bytes(text: Seq<char>) -> bool {
    forall|i: int| 0 <= i < text.len() ==> (#[trigger] text[i] as u32) < 0x80
}

/// The byte length of a concatenation is the sum of the parts' byte lengths.
pub proof fn lemma_byte_len_concat(a: Seq<char>, b: Seq<char>)
    ensures
        byte_len(a + b) == byte_len(a) + byte_len(b),
    decreases b.len(),
{
    if b.len() > 0 {
        assert((a + b).drop_last() =~= a + b.drop_last());
        lemma_byte_len_concat(a, b.drop_last());
    }
}

/// Text made of single-byte characters takes one byte per character.
pub proof fn lemma_byte_len_single_bytes(text: Seq<char>)
    requires
        single_bytes(text),
    ensures
        byte_len(text) == text.len(),
    decreases text.len(),
{
    if text.len() > 0 {
        lemma_byte_len_single_bytes(text.drop_last());
    }
}

/// A decimal numeral has as many digits as its number's magnitude asks for,
/// stated up to ten digits, and each digit is a single byte.
pub proof fn lemma_decimal_shape(n: nat)
    ensures
        decimal(n).len() >= 1,
        single_bytes(decimal(n)),
        byte_len(decimal(n)) == decimal(n).len(),
        n < 10 ==> decimal(n).len() == 1,
        10 <= n < 100 ==> decimal(n).len() == 2,
        100 <= n < 1_000 ==> decimal(n).len() == 3,
        1_000 <= n < 10_000 ==> decimal(n).len() == 4,
        10_000 <= n < 100_000 ==> decimal(n).len() == 5,
        100_000 <= n < 1_000_000 ==> decimal(n).len() == 6,
        1_000_000 <= n < 10_000_000 ==> decimal(n).len() == 7,
        10_000_000 <= n < 100_000_000 ==> decimal(n).len() == 8,
        100_000_000 <= n < 1_000_000_000 ==> decimal(n).len() == 9,
        1_000_000_000 <= n < 10_000_000_000 ==> decimal(n).len() == 10,
    decreases n,
{
    if n >= 10 {
        lemma_decimal_shape(n / 10);
    }
    lemma_byte_len_single_bytes(decimal(n));
}

/// `heapless::String::new`: a line that holds nothing.
#[verifier::external_body]
pub(crate) fn line_new() -> (line: heapless::String<32>)
    ensures
        line_text(line) == Seq::<char>::empty(),
{
    heapless::String::new()
}

/// `heapless::String::push_str`: appends `s` when the line has room for all of
/// its bytes, and otherwise leaves the line as it was and reports an error.
#[verifier::external_body]
pub(crate) fn line_push_str(line: &mut heapless::String<32>, s: &str) -> (r: Result<(), ()>)
    ensures
        r is Ok <==> byte_len(line_text(*old(line))) + byte_len(s@) <= LINE_CAPACITY,
        r is Ok ==> line_text(*final(line)) == line_text(*old(line)) + s@,
        r is Err ==> line_text(*final(line)) == line_text(*old(line)),
{
    line.push_str(s)
}

/// `core::fmt::Write::write_fmt` on a line with the `Display` form of a `u32`:
/// appends the number in decimal when the line has room for its digits.
#[verifier::external_body]
pub(crate) fn line_write_u32(line: &mut heapless::String<32>, n: u32) -> (r: Result<(), ()>)
    ensures
        byte_len(line_text(*old(line))) + decimal(n as nat).len() <= LINE_CAPACITY ==> r is Ok,
        r is Ok ==> line_text(*final(line)) == line_text(*old(line)) + decimal(n as nat),
{
    write!(line, "{}", n).map_err(|_| ())
}

/// A line that holds `prefix`, then `value` in decimal, then `suffix`.
pub fn numbered_line(prefix: &str, value: u32, suffix: &str) -> (line: heapless::String<32>)
    requires
        byte_len(prefix@) + 10 + byte_len(suffix@) <= LINE_CAPACITY,
    ensures
        line_text(line) == prefix@ + decimal(value as nat) + suffix@,
{
    let mut line = line_new();
    proof {
        lemma_decimal_shape(value as nat);
        lemma_byte_len_concat(prefix@, decimal(value as nat));
    }
    let _ = line_push_str(&mut line, prefix);
    let _ = line_write_u32(&mut line, value);
    let _ = line_push_str(&mut line, suffix);
    line
}

} // verus!
