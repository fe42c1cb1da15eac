//! Step ids and byte offsets travel as decimal text. This module writes a
//! number in decimal and reads one back.

use vstd::prelude::*;

verus! {

/// The character of a decimal digit.
pub open spec fn digit_char(d: nat) -> char {
    if d == 0 {
        '0'
    } else if d == 1 {
        '1'
    } else if d == 2 {
        '2'
    } else if d == 3 {
        '3'
    } else if d == 4 {
        '4'
    } else if d == 5 {
        '5'
    } else if d == 6 {
        '6'
    } else if d == 7 {
        '7'
    } else if d == 8 {
        '8'
    } else {
        '9'
    }
}

/// The decimal text of a number: no sign, no leading zero but for zero itself.
pub open spec fn decimal_text(n: nat) -> Seq<char>
    decreases n,
{
    if n < 10 {
        seq![digit_char(n)]
    } else {
        decimal_text(n / 10).push(digit_char(n % 10))
    }
}

/// True for the ten decimal digits.
pub open spec fn is_digit(c: char) -> bool {
    '0' <= c && c <= '9'
}

/// The value of a decimal digit.
pub open spec fn digit_value(c: char) -> nat {
    if is_digit(c) {
        (c as nat - '0' as nat) as nat
    } else {
        0
    }
}

/// True when the text is made of decimal digits only.
pub open spec fn all_digits(s: Seq<char>) -> bool {
    forall|i: int| 0 <= i < s.len() ==> is_digit(#[trigger] s[i])
}

/// The number that a text of decimal digits writes.
pub open spec fn number_of(s: Seq<char>) -> nat
    decreases s.len(),
{
    if s.len() == 0 {
        0
    } else {
        number_of(s.drop_last()) * 10 + digit_value(s.last())
    }
}

/// The digits of a numeral: the text without a leading plus sign.
pub open spec fn digits_of(s: Seq<char>) -> Seq<char> {
    if s.len() > 0 && s[0] == '+' {
        s.skip(1)
    } else {
        s
    }
}

/// The number that a text stands for: an optional plus sign, then one or
/// more decimal digits whose value fits in 32 bits. `None` for any other
/// text.
pub open spec fn parsed_id(s: Seq<char>) -> Option<u32> {
    let body = digits_of(s);
    if body.len() > 0 && all_digits(body) && number_of(body) <= u32::MAX {
        Some(number_of(body) as u32)
    } else {
        None
    }
}

/// The one-character text of a decimal digit.
fn digit_str(d: u64) -> (r: &'static str)
    requires
        d < 10,
    ensures
        r@ == seq![digit_char(d as nat)],
{
    proof {
        reveal_strlit("0");
        reveal_strlit("1");
        reveal_strlit("2");
        reveal_strlit("3");
        reveal_strlit("4");
        reveal_strlit("5");
        reveal_strlit("6");
        reveal_strlit("7");
        reveal_strlit("8");
        reveal_strlit("9");
    }
    let r = if d == 0 {
        "0"
    } else if d == 1 {
        "1"
    } else if d == 2 {
        "2"
    } else if d == 3 {
        "3"
    } else if d == 4 {
        "4"
    } else if d == 5 {
        "5"
    } else if d == 6 {
        "6"
    } else if d == 7 {
        "7"
    } else if d == 8 {
        "8"
    } else {
        "9"
    };
    assert(r@ =~= seq![digit_char(d as nat)]);
    r
}

/// Writes a number in decimal.
pub fn decimal(n: u64) -> (r: String)
    ensures
        r@ == decimal_text(n as nat),
    decreases n,
{
    if n < 10 {
        digit_str(n).to_owned()
    } else {
        let mut text = decimal(n / 10);
        text.append(digit_str(n % 10));
        assert(text@ =~= decimal_text(n as nat));
        text
    }
}

/// A longer text of digits writes a number at least as large as any of its
/// prefixes.
pub proof fn lemma_number_of_prefix(s: Seq<char>, i: int)
    requires
        0 <= i <= s.len(),
    ensures
        number_of(s.take(i)) <= number_of(s),
    decreases s.len(),
{
    if i < s.len() {
        lemma_number_of_prefix(s.drop_last(), i);
        assert(s.drop_last().take(i) =~= s.take(i));
    } else {
        assert(s.take(i) =~= s);
    }
}

/// The largest magnitude that [`read_integer`] tells apart: no integer type
/// the host converts to reaches beyond it.
pub open spec fn magnitude_limit() -> int {
    0x1_0000_0000_0000_0000
}

/// The digits of a signed numeral: the text without its leading sign, where
/// a minus sign counts only if `signed` holds.
pub open spec fn unsigned_part(s: Seq<char>, signed: bool) -> Seq<char> {
    if s.len() > 0 && (s[0] == '+' || (signed && s[0] == '-')) {
        s.skip(1)
    } else {
        s
    }
}

/// True when the numeral starts with a minus sign that counts.
pub open spec fn is_negative(s: Seq<char>, signed: bool) -> bool {
    signed && s.len() > 0 && s[0] == '-'
}

/// The integer that a text stands for in a type with the range `min ..= max`:
/// an optional sign, a minus sign only for a signed type, then one or more
/// decimal digits, and a value inside the range. `None` for any other text.
pub open spec fn integer_value(s: Seq<char>, signed: bool, min: int, max: int) -> Option<int> {
    let body = unsigned_part(s, signed);
    let value = if is_negative(s, signed) {
        -(number_of(body) as int)
    } else {
        number_of(body) as int
    };
    if body.len() > 0 && all_digits(body) && min <= value <= max {
        Some(value)
    } else {
        None
    }
}

/// A text with a character beyond ASCII holds a character that is neither
/// a sign nor a digit, so it stands for no integer.
proof fn lemma_not_ascii_no_integer(s: Seq<char>, signed: bool, min: int, max: int)
    requires
        !vstd::utf8::is_ascii_chars(s),
    ensures
        integer_value(s, signed, min, max) is None,
{
    let i = choose|i: int| 0 <= i < s.len() && !('\0' <= #[trigger] s[i] && s[i] <= '\u{7f}');
    let body = unsigned_part(s, signed);
    if body.len() == s.len() {
        assert(!is_digit(body[i]));
    } else {
        assert(i >= 1);
        assert(body[i - 1] == s[i]);
        assert(!is_digit(body[i - 1]));
    }
}

/// Reads an integer written in decimal, as the `from_str` of the integer
/// types does, for a type with the range `min ..= max`.
pub fn read_integer(text: &str, signed: bool, min: i128, max: i128) -> (r: Option<i128>)
    requires
        -magnitude_limit() <= min <= max <= magnitude_limit(),
    ensures
        match r {
            Some(v) => integer_value(text@, signed, min as int, max as int) == Some(v as int),
            None => integer_value(text@, signed, min as int, max as int) is None,
        },
{
    if !text.is_ascii() {
        proof {
            lemma_not_ascii_no_integer(text@, signed, min as int, max as int);
        }
        return None;
    }
    let len = text.unicode_len();
    let first: u8 = if len > 0 {
        text.get_ascii(0)
    } else {
        0
    };
    let negative = signed && len > 0 && first == 45;
    let start: usize = if len > 0 && (first == 43 || negative) {
        1
    } else {
        0
    };
    let ghost body = unsigned_part(text@, signed);
    assert(body =~= text@.skip(start as int));
    if start == len {
        return None;
    }
    let mut value: u128 = 0;
    let mut i: usize = start;
    assert(body.take(0) =~= Seq::<char>::empty());
    while i < len
        invariant
            start <= i <= len,
            len == text@.len(),
            vstd::string::is_ascii(text),
            body == text@.skip(start as int),
            body == unsigned_part(text@, signed),
            negative == is_negative(text@, signed),
            body.len() > 0,
            all_digits(body.take(i - start)),
            value == number_of(body.take(i - start)),
            value <= magnitude_limit(),
            -magnitude_limit() <= min <= max <= magnitude_limit(),
        decreases len - i,
    {
        let b = text.get_ascii(i);
        let ghost c = text@[i as int];
        let ghost k = i - start;
        assert(body[k] == c);
        assert('\0' <= c && c <= '\u{7f}');
        assert(body.take(k + 1).drop_last() =~= body.take(k));
        assert(body.take(k + 1).last() == c);
        if !(48 <= b && b <= 57) {
            assert(!is_digit(body[k]));
            assert(!all_digits(body));
            return None;
        }
        let d: u128 = (b - 48) as u128;
        assert(d == digit_value(c));
        value = value * 10 + d;
        assert(value == number_of(body.take(k + 1)));
        if value > 0x1_0000_0000_0000_0000 {
            proof {
                lemma_number_of_prefix(body, k + 1);
            }
            return None;
        }
        assert forall|j: int| 0 <= j < k + 1 implies is_digit(#[trigger] body.take(k + 1)[j]) by {
            if j < k {
                assert(body.take(k)[j] == body.take(k + 1)[j]);
            }
        }
        i += 1;
    }
    assert(body.take(len - start) =~= body);
    let wide: i128 = value as i128;
    let signed_value: i128 = if negative {
        -wide
    } else {
        wide
    };
    if min <= signed_value && signed_value <= max {
        Some(signed_value)
    } else {
        None
    }
}

/// Reads a number written in decimal, as `u32::from_str` does: an optional
/// plus sign, then digits; no other character, and no value beyond 32 bits.
pub fn parse_id(text: &str) -> (r: Option<u32>)
    ensures
        r == parsed_id(text@),
{
    assert(unsigned_part(text@, false) == digits_of(text@));
    match read_integer(text, false, 0, 0xffff_ffff) {
        Some(value) => Some(value as u32),
        None => None,
    }
}

/// The decimal text of a number is made of digits, starts with one, and
/// writes that number.
pub proof fn lemma_decimal_text_digits(n: nat)
    ensures
        decimal_text(n).len() > 0,
        all_digits(decimal_text(n)),
        number_of(decimal_text(n)) == n,
    decreases n,
{
    if n < 10 {
        let s = seq![digit_char(n)];
        assert(s.drop_last() =~= Seq::<char>::empty());
        assert(s.last() == digit_char(n));
        assert(number_of(s.drop_last()) == 0);
        assert(digit_value(digit_char(n)) == n);
    } else {
        lemma_decimal_text_digits(n / 10);
        let head = decimal_text(n / 10);
        let s = head.push(digit_char(n % 10));
        assert(s.drop_last() =~= head);
        assert(s.last() == digit_char(n % 10));
        assert(digit_value(digit_char(n % 10)) == n % 10);
        assert forall|i: int| 0 <= i < s.len() implies is_digit(#[trigger] s[i]) by {
            if i < head.len() {
                assert(s[i] == head[i]);
            }
        }
    }
}

/// Reading back what [`decimal`] writes for a 32-bit number gives the
/// number: an id that is sent out in decimal is understood when it comes
/// back.
pub proof fn lemma_parse_decimal(n: u32)
    ensures
        parsed_id(decimal_text(n as nat)) == Some(n),
{
    lemma_decimal_text_digits(n as nat);
    let s = decimal_text(n as nat);
    assert(is_digit(s[0]));
    assert(digits_of(s) == s);
}

} // verus!
