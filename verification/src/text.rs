//! Text helpers: decimal numerals, column padding, and lossy UTF-8 decoding.

use vstd::prelude::*;
use vstd::string::*;
use vstd::utf8::*;

verus! {

/// The character that stands for the digit `d`.
pub open spec fn digit_char(d: nat) -> char
    recommends
        d < 10,
{
    if d == 0 {
        '0'
    } else if d == 1 {
        '1'
    } else if d == 2 {
        '2'
    } else if d == 3 {
        '3'
    } else if d == 4 {
        '4'
    } else if d == 5 {
        '5'
    } else if d == 6 {
        '6'
    } else if d == 7 {
        '7'
    } else if d == 8 {
        '8'
    } else {
        '9'
    }
}

/// The decimal numeral of `n`, most significant digit first, without leading zeros.
pub open spec fn decimal(n: nat) -> Seq<char>
    decreases n,
{
    if n < 10 {
        seq![digit_char(n)]
    } else {
        decimal(n / 10).push(digit_char(n % 10))
    }
}

/// The decimal numeral of a signed number: a minus sign before the magnitude
/// of a negative one.
pub open spec fn signed_decimal(n: int) -> Seq<char> {
    if n < 0 {
        seq!['-'] + decimal((-n) as nat)
    } else {
        decimal(n as nat)
    }
}

/// The texts of a list of strings.
pub open spec fn texts(strings: Seq<String>) -> Seq<Seq<char>> {
    Seq::new(strings.len(), |i: int| strings[i]@)
}

/// `n` spaces.
pub open spec fn spaces(n: nat) -> Seq<char> {
    Seq::new(n, |i: int| ' ')
}

/// `s` in a column of `width` characters, the text on the left.
pub open spec fn pad_end(s: Seq<char>, width: nat) -> Seq<char> {
    if s.len() >= width {
        s
    } else {
        s + spaces((width - s.len()) as nat)
    }
}

/// `s` in a column of `width` characters, the text on the right.
pub open spec fn pad_start(s: Seq<char>, width: nat) -> Seq<char> {
    if s.len() >= width {
        s
    } else {
        spaces((width - s.len()) as nat) + s
    }
}

/// Whether `c` is one of the ten digits.
pub open spec fn is_digit(c: char) -> bool {
    exists|d: nat| d < 10 && c == #[trigger] digit_char(d)
}

/// A decimal numeral is made of digits: one for a number under ten, at least
/// two for any other.
pub proof fn lemma_decimal_digits(n: nat)
    ensures
        decimal(n).len() >= 1,
        n >= 10 ==> decimal(n).len() >= 2,
        forall|i: int| 0 <= i < decimal(n).len() ==> is_digit(#[trigger] decimal(n)[i]),
    decreases n,
{
    if n < 10 {
        assert(is_digit(digit_char(n)));
    } else {
        lemma_decimal_digits(n / 10);
        assert(is_digit(digit_char(n % 10)));
    }
}

/// Two numbers with the same decimal numeral are the same number.
pub proof fn lemma_decimal_injective(a: nat, b: nat)
    requires
        decimal(a) == decimal(b),
    ensures
        a == b,
    decreases a,
{
    lemma_decimal_digits(a);
    lemma_decimal_digits(b);
    if a < 10 && b < 10 {
        assert(decimal(a)[0] == digit_char(a));
        assert(decimal(b)[0] == digit_char(b));
    } else if a < 10 {
        assert(decimal(a).len() == 1);
    } else if b < 10 {
        assert(decimal(b).len() == 1);
    } else {
        assert(decimal(a).drop_last() =~= decimal(a / 10));
        assert(decimal(b).drop_last() =~= decimal(b / 10));
        assert(decimal(a).last() == digit_char(a % 10));
        assert(decimal(b).last() == digit_char(b % 10));
        lemma_decimal_injective(a / 10, b / 10);
        assert(a % 10 == b % 10);
        assert(a == 10 * (a / 10) + a % 10);
        assert(b == 10 * (b / 10) + b % 10);
    }
}

/// Two numbers with the same signed decimal numeral are the same number.
pub proof fn lemma_signed_decimal_injective(a: int, b: int)
    requires
        signed_decimal(a) == signed_decimal(b),
    ensures
        a == b,
{
    let mag_a = (if a < 0 { -a } else { a }) as nat;
    let mag_b = (if b < 0 { -b } else { b }) as nat;
    lemma_decimal_digits(mag_a);
    lemma_decimal_digits(mag_b);
    assert(signed_decimal(a)[0] == signed_decimal(b)[0]);
    assert(is_digit(decimal(mag_a)[0]));
    assert(is_digit(decimal(mag_b)[0]));
    if a < 0 && b < 0 {
        assert(signed_decimal(a).subrange(1, signed_decimal(a).len() as int) =~= decimal(mag_a));
        assert(signed_decimal(b).subrange(1, signed_decimal(b).len() as int) =~= decimal(mag_b));
        lemma_decimal_injective(mag_a, mag_b);
    } else if a >= 0 && b >= 0 {
        lemma_decimal_injective(mag_a, mag_b);
    } else {
    }
}

/// Two valid UTF-8 byte sequences that decode to the same text are the same
/// bytes.
pub proof fn lemma_decoded_text_injective(a: Seq<u8>, b: Seq<u8>)
    requires
        valid_utf8(a),
        valid_utf8(b),
        decoded_text(a) == decoded_text(b),
    ensures
        a == b,
{
    decode_utf8_encode_utf8(a);
    decode_utf8_encode_utf8(b);
}

fn digit_str(d: u128) -> (s: &'static str)
    requires
        d < 10,
    ensures
        s@ == seq![digit_char(d as nat)],
{
    proof {
        reveal_strlit("0");
        reveal_strlit("1");
        reveal_strlit("2");
        reveal_strlit("3");
        reveal_strlit("4");
        reveal_strlit("5");
        reveal_strlit("6");
        reveal_strlit("7");
        reveal_strlit("8");
        reveal_strlit("9");
    }
    let s = if d == 0 {
        "0"
    } else if d == 1 {
        "1"
    } else if d == 2 {
        "2"
    } else if d == 3 {
        "3"
    } else if d == 4 {
        "4"
    } else if d == 5 {
        "5"
    } else if d == 6 {
        "6"
    } else if d == 7 {
        "7"
    } else if d == 8 {
        "8"
    } else {
        "9"
    };
    assert(s@ =~= seq![digit_char(d as nat)]);
    s
}

/// Writes `n` as a decimal numeral.
pub fn format_unsigned(n: u128) -> (s: String)
    ensures
        s@ == decimal(n as nat),
    decreases n,
{
    if n < 10 {
        String::from_str(digit_str(n))
    } else {
        let mut s = format_unsigned(n / 10);
        s.append(digit_str(n % 10));
        assert(s@ =~= decimal(n as nat));
        s
    }
}

/// Writes `n` as a decimal numeral, with a minus sign if it is negative.
pub fn format_signed(n: i32) -> (s: String)
    ensures
        s@ == signed_decimal(n as int),
{
    if n < 0 {
        let magnitude: u128 = (-(n as i64)) as u128;
        let mut s = String::from_str("-");
        let digits = format_unsigned(magnitude);
        s.append(digits.as_str());
        proof {
            reveal_strlit("-");
            assert(s@ =~= signed_decimal(n as int));
        }
        s
    } else {
        format_unsigned(n as u128)
    }
}

fn blank(n: usize) -> (s: String)
    ensures
        s@ == spaces(n as nat),
{
    let mut s = String::new();
    let mut i: usize = 0;
    assert(s@ =~= spaces(0));
    while i < n
        invariant
            i <= n,
            s@ == spaces(i as nat),
        decreases n - i,
    {
        s.append(" ");
        i += 1;
        proof {
            reveal_strlit(" ");
            assert(s@ =~= spaces(i as nat));
        }
    }
    s
}

/// Writes `s` into a column of `width` characters, filling up with spaces
/// behind it.
pub fn pad_text_end(s: &str, width: usize) -> (out: String)
    ensures
        out@ == pad_end(s@, width as nat),
{
    let len = s.unicode_len();
    let mut out = String::from_str(s);
    if len < width {
        let fill = blank(width - len);
        out.append(fill.as_str());
    }
    out
}

/// Writes `s` into a column of `width` characters, filling up with spaces
/// before it.
pub fn pad_text_start(s: &str, width: usize) -> (out: String)
    ensures
        out@ == pad_start(s@, width as nat),
{
    let len = s.unicode_len();
    if len < width {
        let mut out = blank(width - len);
        out.append(s);
        out
    } else {
        String::from_str(s)
    }
}

/// What lossy decoding makes of a byte sequence that is not valid UTF-8.
pub uninterp spec fn lossy_utf8(bytes: Seq<u8>) -> Seq<char>;

/// The text that a byte sequence stands for: its characters where it is valid
/// UTF-8, and otherwise what lossy decoding makes of it.
pub open spec fn decoded_text(bytes: Seq<u8>) -> Seq<char> {
    if valid_utf8(bytes) {
        decode_utf8(bytes)
    } else {
        lossy_utf8(bytes)
    }
}

/// Calls `String::from_utf8_lossy`. Trusted: valid UTF-8 is decoded as it
/// stands, and what comes of any other input depends on the bytes alone.
#[verifier::external_body]
pub(crate) fn decode_lossy(bytes: &Vec<u8>) -> (text: String)
    ensures
        valid_utf8(bytes@) ==> text@ == decode_utf8(bytes@),
        !valid_utf8(bytes@) ==> text@ == lossy_utf8(bytes@),
{
    String::from_utf8_lossy(bytes).into_owned()
}

} // verus!
