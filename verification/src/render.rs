//! Rendering of the status line: a fixed label followed by the counter's
//! decimal digits, built in a fixed-capacity text buffer. The buffer is a
//! `heapless::String` of capacity 32, the same bounded buffer a device build
//! would use; its operations are trusted against that crate's source. A line
//! that would not fit the capacity is reported as an overflow, never silently
//! truncated.

use vstd::prelude::*;
use vstd::utf8::is_ascii_chars;

verus! {

/// The decimal digit character for a value between 0 and 9.
pub open spec fn digit_char(d: int) -> char {
    if d == 0 {
        '0'
    } else if d == 1 {
        '1'
    } else if d == 2 {
        '2'
    } else if d == 3 {
        '3'
    } else if d == 4 {
        '4'
    } else if d == 5 {
        '5'
    } else if d == 6 {
        '6'
    } else if d == 7 {
        '7'
    } else if d == 8 {
        '8'
    } else {
        '9'
    }
}

/// The decimal digits of a non-negative value, most significant first,
/// without a sign and without leading zeros (a lone zero for 0).
pub open spec fn decimal_chars(n: int) -> Seq<char>
    decreases n,
{
    if n < 10 {
        seq![digit_char(n)]
    } else {
        decimal_chars(n / 10).push(digit_char(n % 10))
    }
}

/// A status line is the label followed by the value's decimal digits.
pub open spec fn status_line(label: Seq<char>, value: u32) -> Seq<char> {
    label + decimal_chars(value as int)
}

/// Every character of a decimal rendering is a digit, hence ASCII.
pub proof fn lemma_decimal_chars_digits(n: int)
    requires
        0 <= n,
    ensures
        1 <= decimal_chars(n).len(),
        forall|i: int|
            0 <= i < decimal_chars(n).len() ==> '0' <= #[trigger] decimal_chars(n)[i] <= '9',
        is_ascii_chars(decimal_chars(n)),
    decreases n,
{
    if n >= 10 {
        lemma_decimal_chars_digits(n / 10);
    }
}

/// Powers of ten, for bounding the number of digits.
pub open spec fn pow10(k: nat) -> int
    decreases k,
{
    if k == 0 {
        1
    } else {
        10 * pow10((k - 1) as nat)
    }
}

/// A value below the k-th power of ten has at most k decimal digits.
pub proof fn lemma_decimal_chars_len(n: int, k: nat)
    requires
        0 <= n < pow10(k),
        1 <= k,
    ensures
        decimal_chars(n).len() <= k,
    decreases k,
{
    if n >= 10 {
        if k == 1 {
            assert(pow10(1) == 10) by {
                reveal_with_fuel(pow10, 2);
            }
        } else {
            assert(pow10(k) == 10 * pow10((k - 1) as nat));
            assert(n / 10 < pow10((k - 1) as nat)) by {
                vstd::arithmetic::div_mod::lemma_fundamental_div_mod(n, 10);
                vstd::arithmetic::div_mod::lemma_mod_bound(n, 10);
            }
            lemma_decimal_chars_len(n / 10, (k - 1) as nat);
        }
    }
}

/// Any `u32` value has at most ten decimal digits.
pub proof fn lemma_u32_decimal_len(value: u32)
    ensures
        decimal_chars(value as int).len() <= 10,
{
    assert(pow10(10) == 10_000_000_000) by {
        reveal_with_fuel(pow10, 11);
    }
    lemma_decimal_chars_len(value as int, 10);
}

/// Declares `heapless::String<N>` so that it can stand in signatures;
/// Verus treats values of it as opaque.
#[verifier::external_type_specification]
#[verifier::external_body]
pub struct ExHeaplessString<const N: usize>(heapless::String<N>);

/// The characters held by a capacity-32 `heapless::String`.
pub uninterp spec fn hstring_chars(s: heapless::String<32>) -> Seq<char>;

/// Relies on `heapless::String::new`: the fresh buffer is empty.
#[verifier::external_body]
fn hstring_new() -> (r: heapless::String<32>)
    ensures
        hstring_chars(r) == Seq::<char>::empty(),
{
    heapless::String::new()
}

/// Relies on `heapless::String::push_str` (via `Vec::extend_from_slice`):
/// when the appended text fits the remaining capacity the buffer grows by
/// exactly that text, otherwise the call errs and the buffer is unchanged.
/// Capacity is counted in bytes; both the buffer and the appended text are
/// required to be ASCII, where bytes and characters coincide.
#[verifier::external_body]
fn hstring_push_str(s: &mut heapless::String<32>, t: &str) -> (r: Result<(), ()>)
    requires
        is_ascii_chars(hstring_chars(*old(s))),
        is_ascii_chars(t@),
    ensures
        r is Ok <==> hstring_chars(*old(s)).len() + t@.len() <= 32,
        r is Ok ==> hstring_chars(*final(s)) == hstring_chars(*old(s)) + t@,
        r is Err ==> hstring_chars(*final(s)) == hstring_chars(*old(s)),
{
    s.push_str(t)
}

/// Relies on `heapless::String::<32>::from::<u32>`: it writes the value's
/// decimal digits with `core::fmt` (no sign, no padding); at most ten digits,
/// so the capacity of 32 is never exceeded.
#[verifier::external_body]
fn hstring_from_u32(value: u32) -> (r: heapless::String<32>)
    ensures
        hstring_chars(r) == decimal_chars(value as int),
{
    heapless::String::from(value)
}

/// Relies on `heapless::String::as_str`: it returns the buffer's contents.
#[verifier::external_body]
fn hstring_as_str(s: &heapless::String<32>) -> (r: &str)
    ensures
        r@ == hstring_chars(*s),
{
    s.as_str()
}

/// A fully rendered status line, held in its fixed-capacity buffer.
pub struct Line {
    buf: heapless::String<32>,
}

impl View for Line {
    type V = Seq<char>;

    closed spec fn view(&self) -> Seq<char> {
        hstring_chars(self.buf)
    }
}

impl Line {
    /// The rendered text.
    pub fn as_text(&self) -> (r: &str)
        ensures
            r@ == self@,
    {
        hstring_as_str(&self.buf)
    }

    /// The rendered text as an owned string.
    pub fn to_text(&self) -> (r: String)
        ensures
            r@ == self@,
    {
        self.as_text().to_owned()
    }
}

/// Why a status line could not be rendered.
#[derive(Clone, Copy, Debug, PartialEq, Eq, Structural)]
pub enum RenderError {
    /// The label and the digits together would exceed the buffer capacity.
    Overflow,
}

/// Renders `label` followed by the decimal digits of `value` into a
/// fixed-capacity buffer. Succeeds exactly when the whole line fits the
/// capacity of 32; an overflowing line is refused outright, the buffer is
/// never truncated.
pub fn render_line(label: &str, value: u32) -> (r: Result<Line, RenderError>)
    requires
        is_ascii_chars(label@),
    ensures
        r is Ok <==> label@.len() + decimal_chars(value as int).len() <= 32,
        r is Ok ==> r->Ok_0@ == status_line(label@, value),
        r is Err ==> r->Err_0 == RenderError::Overflow,
{
    let mut buf = hstring_new();
    if hstring_push_str(&mut buf, label).is_err() {
        proof {
            lemma_decimal_chars_digits(value as int);
        }
        return Err(RenderError::Overflow);
    }
    let digits = hstring_from_u32(value);
    proof {
        lemma_decimal_chars_digits(value as int);
    }
    let digit_text = hstring_as_str(&digits);
    if hstring_push_str(&mut buf, digit_text).is_err() {
        return Err(RenderError::Overflow);
    }
    Ok(Line { buf })
}

} // verus!
