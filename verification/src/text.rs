//! Text as the resource compiler reads it: how characters become bytes, how
//! numbers are written in decimal and hexadecimal, and how a number is read
//! back from text.

use vstd::prelude::*;
use vstd::utf8::encode_utf8;

verus! {

/// The characters of a string followed by those of another encode to the
/// bytes of the first followed by the bytes of the second.
pub proof fn lemma_utf8_concat(a: Seq<char>, b: Seq<char>)
    ensures
        encode_utf8(a + b) == encode_utf8(a) + encode_utf8(b),
    decreases a.len(),
{
    if a.len() == 0 {
        assert(a + b == b);
        assert(encode_utf8(a) + encode_utf8(b) == encode_utf8(b));
    } else {
        assert((a + b).drop_first() == a.drop_first() + b);
        lemma_utf8_concat(a.drop_first(), b);
        assert(encode_utf8(a + b) == vstd::utf8::encode_scalar(a[0] as u32) + (encode_utf8(
            a.drop_first(),
        ) + encode_utf8(b)));
        assert(vstd::utf8::encode_scalar(a[0] as u32) + (encode_utf8(a.drop_first())
            + encode_utf8(b)) == (vstd::utf8::encode_scalar(a[0] as u32) + encode_utf8(
            a.drop_first(),
        )) + encode_utf8(b));
    }
}

/// Appends one character to a string, through `String::push` of the standard
/// library: the string afterwards is the string before, followed by `c`.
#[verifier::external_body]
pub(crate) fn push_char(s: &mut String, c: char)
    ensures
        final(s)@ == old(s)@.push(c),
{
    s.push(c);
}

/// Appends the characters of `tail` to `s`.
pub fn push_text(s: &mut String, tail: &str)
    ensures
        final(s)@ == old(s)@ + tail@,
{
    let chars = tail.chars();
    for c in it: chars
        invariant
            it.seq() == tail@,
            s@ == old(s)@ + tail@.take(it.index()),
    {
        proof {
            assert(tail@.take(it.index() + 1) == tail@.take(it.index()).push(c));
            assert(old(s)@ + tail@.take(it.index()).push(c) == (old(s)@ + tail@.take(
                it.index(),
            )).push(c));
        }
        push_char(s, c);
    }
    proof {
        assert(tail@.take(tail@.len() as int) == tail@);
    }
}

/// The characters of a string, one by one.
pub fn chars_of(s: &str) -> (r: Vec<char>)
    ensures
        r@ == s@,
{
    let mut out: Vec<char> = Vec::new();
    let chars = s.chars();
    for c in it: chars
        invariant
            it.seq() == s@,
            out@ == s@.take(it.index()),
    {
        proof {
            assert(s@.take(it.index() + 1) == s@.take(it.index()).push(c));
        }
        out.push(c);
    }
    proof {
        assert(s@.take(s@.len() as int) == s@);
    }
    out
}

/// The string made of the characters `chars[from..to]`.
pub(crate) fn text_of(chars: &Vec<char>, from: usize, to: usize) -> (r: String)
    requires
        from <= to <= chars.len(),
    ensures
        r@ == chars@.subrange(from as int, to as int),
{
    let mut out = String::new();
    let mut i: usize = from;
    while i < to
        invariant
            from <= i <= to <= chars.len(),
            out@ == chars@.subrange(from as int, i as int),
        decreases to - i,
    {
        proof {
            assert(chars@.subrange(from as int, i + 1) == chars@.subrange(from as int, i as int).push(
                chars@[i as int],
            ));
        }
        push_char(&mut out, chars[i]);
        i = i + 1;
    }
    out
}

/// Whether two strings hold the same characters.
pub fn same_text(a: &str, b: &str) -> (r: bool)
    ensures
        r == (a@ == b@),
{
    let x = chars_of(a);
    let y = chars_of(b);
    if x.len() != y.len() {
        return false;
    }
    let mut i: usize = 0;
    while i < x.len()
        invariant
            i <= x.len(),
            x.len() == y.len(),
            x@ == a@,
            y@ == b@,
            forall|j: int| 0 <= j < i ==> x@[j] == y@[j],
        decreases x.len() - i,
    {
        if x[i] != y[i] {
            return false;
        }
        i = i + 1;
    }
    proof {
        assert(x@ =~= y@);
    }
    true
}

/// The character that writes the digit `d` in bases up to sixteen, letters
/// in upper case.
pub open spec fn digit_char(d: nat) -> char {
    if d < 10 {
        (48 + d) as char
    } else {
        (55 + d) as char
    }
}

/// `n` in decimal, without leading zeros.
pub open spec fn decimal(n: nat) -> Seq<char>
    decreases n,
{
    if n < 10 {
        seq![digit_char(n)]
    } else {
        decimal(n / 10).push(digit_char(n % 10))
    }
}

/// An integer in decimal, with a minus sign where it is negative.
pub open spec fn signed_decimal(n: int) -> Seq<char> {
    if n < 0 {
        seq!['-'] + decimal((-n) as nat)
    } else {
        decimal(n as nat)
    }
}

/// `n` in hexadecimal with upper-case letters, without leading zeros.
pub open spec fn hex(n: nat) -> Seq<char>
    decreases n,
{
    if n < 16 {
        seq![digit_char(n)]
    } else {
        hex(n / 16).push(digit_char(n % 16))
    }
}

/// The four hexadecimal digits of a 16-bit number, leading zeros included.
pub open spec fn hex4(n: nat) -> Seq<char> {
    seq![
        digit_char((n / 4096) % 16),
        digit_char((n / 256) % 16),
        digit_char((n / 16) % 16),
        digit_char(n % 16),
    ]
}

/// `n` in hexadecimal behind the prefix `0x`.
pub open spec fn prefixed_hex(n: nat) -> Seq<char> {
    seq!['0', 'x'] + hex(n)
}

/// The 32 bits of a signed number, read as an unsigned one.
pub open spec fn bits_of(code: int) -> nat {
    if code >= 0 {
        code as nat
    } else {
        (code + 0x1_0000_0000) as nat
    }
}

/// `s` behind as many spaces as bring it to `width` characters; `s` itself
/// where it is that long already.
pub open spec fn right_aligned(s: Seq<char>, width: nat) -> Seq<char> {
    if s.len() >= width {
        s
    } else {
        Seq::new((width - s.len()) as nat, |i: int| ' ') + s
    }
}

/// A decimal number has only digits, begins with a zero only where it is
/// zero, and has at most ten digits where the number fits 32 bits.
pub proof fn lemma_decimal_shape(n: nat)
    ensures
        decimal(n).len() >= 1,
        forall|i: int| 0 <= i < decimal(n).len() ==> '0' <= #[trigger] decimal(n)[i] <= '9',
        decimal(n)[0] == '0' <==> n == 0,
        n == 0 ==> decimal(n) == seq!['0'],
        n <= u32::MAX ==> decimal(n).len() <= 10,
    decreases n,
{
    if n < 10 {
    } else {
        lemma_decimal_shape(n / 10);
        if n <= u32::MAX {
            lemma_decimal_len(n);
        }
    }
}

proof fn lemma_decimal_len(n: nat)
    requires
        n <= u32::MAX,
    ensures
        decimal(n).len() <= 10,
{
    reveal_with_fuel(decimal, 11);
}

/// The number that a sequence of decimal digits writes.
pub open spec fn digits_value(s: Seq<char>) -> nat
    decreases s.len(),
{
    if s.len() == 0 {
        0
    } else {
        (digits_value(s.drop_last()) * 10 + (s.last() as nat - 48)) as nat
    }
}

/// Whether every character is a decimal digit.
pub open spec fn all_digits(s: Seq<char>) -> bool {
    forall|i: int| 0 <= i < s.len() ==> '0' <= #[trigger] s[i] <= '9'
}

/// Reading a number's decimal form gives the number back.
pub proof fn lemma_decimal_round_trip(n: nat)
    ensures
        all_digits(decimal(n)),
        digits_value(decimal(n)) == n,
    decreases n,
{
    if n < 10 {
        assert(decimal(n).drop_last() == Seq::<char>::empty());
        assert(digits_value(decimal(n).drop_last()) == 0);
    } else {
        lemma_decimal_round_trip(n / 10);
        assert(decimal(n).drop_last() == decimal(n / 10));
    }
}

/// The digit `d` as a character.
pub(crate) fn digit_of(d: u32) -> (c: char)
    requires
        d < 16,
    ensures
        c == digit_char(d as nat),
{
    if d < 10 {
        (48u8 + (d as u8)) as char
    } else {
        (55u8 + (d as u8)) as char
    }
}

/// Appends `n` in decimal.
pub fn push_decimal(out: &mut String, n: u32)
    ensures
        final(out)@ == old(out)@ + decimal(n as nat),
    decreases n,
{
    if n >= 10 {
        push_decimal(out, n / 10);
    }
    push_char(out, digit_of(n % 10));
    proof {
        if n >= 10 {
            assert(old(out)@ + decimal(n as nat) == (old(out)@ + decimal((n / 10) as nat)).push(
                digit_char((n % 10) as nat),
            ));
        } else {
            assert(old(out)@ + decimal(n as nat) == old(out)@.push(digit_char(n as nat)));
        }
    }
}

/// Appends a signed number in decimal.
pub fn push_signed_decimal(out: &mut String, n: i32)
    ensures
        final(out)@ == old(out)@ + signed_decimal(n as int),
{
    if n < 0 {
        push_char(out, '-');
        let m: i64 = -(n as i64);
        push_decimal(out, m as u32);
        proof {
            assert(old(out)@ + signed_decimal(n as int) == old(out)@.push('-') + decimal(
                (-n) as nat,
            ));
        }
    } else {
        push_decimal(out, n as u32);
    }
}

/// Appends `n` in hexadecimal, upper case, without leading zeros.
pub fn push_hex(out: &mut String, n: u32)
    ensures
        final(out)@ == old(out)@ + hex(n as nat),
    decreases n,
{
    if n >= 16 {
        push_hex(out, n / 16);
    }
    push_char(out, digit_of(n % 16));
    proof {
        if n >= 16 {
            assert(old(out)@ + hex(n as nat) == (old(out)@ + hex((n / 16) as nat)).push(
                digit_char((n % 16) as nat),
            ));
        } else {
            assert(old(out)@ + hex(n as nat) == old(out)@.push(digit_char(n as nat)));
        }
    }
}

/// Appends the four hexadecimal digits of `n`.
pub fn push_hex4(out: &mut String, n: u16)
    ensures
        final(out)@ == old(out)@ + hex4(n as nat),
{
    let v: u32 = n as u32;
    push_char(out, digit_of((v / 4096) % 16));
    push_char(out, digit_of((v / 256) % 16));
    push_char(out, digit_of((v / 16) % 16));
    push_char(out, digit_of(v % 16));
    proof {
        assert(final(out)@ =~= old(out)@ + hex4(n as nat));
    }
}

/// Appends `0x` and `n` in hexadecimal.
pub fn push_prefixed_hex(out: &mut String, n: u32)
    ensures
        final(out)@ == old(out)@ + prefixed_hex(n as nat),
{
    push_char(out, '0');
    push_char(out, 'x');
    push_hex(out, n);
    proof {
        assert(final(out)@ =~= old(out)@ + prefixed_hex(n as nat));
    }
}

/// The 32 bits of `code` as an unsigned number.
pub fn bits(code: i32) -> (r: u32)
    ensures
        r as nat == bits_of(code as int),
{
    if code >= 0 {
        code as u32
    } else {
        let m: i64 = code as i64 + 0x1_0000_0000i64;
        m as u32
    }
}

/// The number that `s` writes in decimal, after an optional plus sign: `None`
/// where `s` has no digit, has anything but digits, or writes more than a
/// 16-bit number holds.
pub open spec fn parsed_u16(s: Seq<char>) -> Option<u16> {
    let digits = if s.len() > 0 && s[0] == '+' {
        s.drop_first()
    } else {
        s
    };
    if digits.len() > 0 && all_digits(digits) && digits_value(digits) <= u16::MAX {
        Some(digits_value(digits) as u16)
    } else {
        None
    }
}

proof fn lemma_digits_value_grows(s: Seq<char>, k: int)
    requires
        all_digits(s),
        0 <= k <= s.len(),
    ensures
        digits_value(s.take(k)) <= digits_value(s),
    decreases s.len() - k,
{
    if k == s.len() {
        assert(s.take(k) == s);
    } else {
        lemma_digits_value_grows(s, k + 1);
        assert(s.take(k + 1).drop_last() == s.take(k));
        assert(s.take(k + 1).last() == s[k]);
    }
}

/// Reads a 16-bit number from its decimal form.
pub fn parse_u16(s: &str) -> (r: Option<u16>)
    ensures
        r == parsed_u16(s@),
{
    let chars = chars_of(s);
    let start: usize = if chars.len() > 0 && chars[0] == '+' {
        1
    } else {
        0
    };
    let ghost digits = chars@.subrange(start as int, chars@.len() as int);
    proof {
        if start == 1 {
            assert(digits == s@.drop_first());
        } else {
            assert(digits == s@);
        }
    }
    if start == chars.len() {
        return None;
    }
    let mut value: u32 = 0;
    let mut i: usize = start;
    while i < chars.len()
        invariant
            start <= i <= chars.len(),
            start < chars.len(),
            digits == chars@.subrange(start as int, chars@.len() as int),
            digits == if s@.len() > 0 && s@[0] == '+' {
                s@.drop_first()
            } else {
                s@
            },
            all_digits(digits.take(i - start)),
            value == digits_value(digits.take(i - start)),
            value <= u16::MAX,
        decreases chars.len() - i,
    {
        let c = chars[i];
        proof {
            assert(digits.take(i + 1 - start).drop_last() == digits.take(i - start));
            assert(digits.take(i + 1 - start).last() == c);
            assert(digits[i - start] == c);
        }
        if !(c >= '0' && c <= '9') {
            return None;
        }
        let d: u32 = (c as u32) - 48;
        let next: u32 = value * 10 + d;
        proof {
            assert forall|j: int| 0 <= j < digits.take(i + 1 - start).len() implies '0'
                <= #[trigger] digits.take(i + 1 - start)[j] <= '9' by {
                if j < i - start {
                    assert(digits.take(i - start)[j] == digits.take(i + 1 - start)[j]);
                }
            }
        }
        if next > 65535 {
            proof {
                if all_digits(digits) {
                    lemma_digits_value_grows(digits, i + 1 - start);
                }
            }
            return None;
        }
        value = next;
        i = i + 1;
    }
    proof {
        assert(digits.take(i - start) == digits);
    }
    Some(value as u16)
}

} // verus!
