//! Decimal text, trimming and UTF-8: the small amount of text handling that
//! file names, the version hint and the name mapping are made of.
use vstd::prelude::*;
use vstd::utf8::{decode_utf8, encode_utf8, valid_utf8};

verus! {

/// The decimal digit for `d`, a number below ten.
pub open spec fn digit_char(d: int) -> char {
    if d == 0 {
        '0'
    } else if d == 1 {
        '1'
    } else if d == 2 {
        '2'
    } else if d == 3 {
        '3'
    } else if d == 4 {
        '4'
    } else if d == 5 {
        '5'
    } else if d == 6 {
        '6'
    } else if d == 7 {
        '7'
    } else if d == 8 {
        '8'
    } else {
        '9'
    }
}

/// The decimal numeral of a natural number, without leading zeros.
pub open spec fn decimal(n: nat) -> Seq<char>
    decreases n,
{
    if n < 10 {
        seq![digit_char(n as int)]
    } else {
        decimal(n / 10).push(digit_char((n % 10) as int))
    }
}

/// The decimal numeral of an integer: a minus sign for negative numbers, then
/// the digits.
pub open spec fn int_text(i: int) -> Seq<char> {
    if i < 0 {
        seq!['-'] + decimal((-i) as nat)
    } else {
        decimal(i as nat)
    }
}

/// Whether `c` is one of the ten ASCII digits.
pub open spec fn is_digit(c: char) -> bool {
    '0' <= c <= '9'
}

/// The hexadecimal digit for a number below sixteen.
pub open spec fn hex_char(d: int) -> char {
    if d < 10 {
        digit_char(d)
    } else if d == 10 {
        'a'
    } else if d == 11 {
        'b'
    } else if d == 12 {
        'c'
    } else if d == 13 {
        'd'
    } else if d == 14 {
        'e'
    } else {
        'f'
    }
}

/// What stands for a character inside a JSON string: a quote, a backslash and a
/// control character are escaped, any other character stands for itself.
pub open spec fn escaped_char(c: char) -> Seq<char> {
    if c == '\u{22}' || c == '\u{5c}' {
        seq!['\u{5c}', c]
    } else if c == '\u{8}' {
        seq!['\u{5c}', 'b']
    } else if c == '\u{9}' {
        seq!['\u{5c}', 't']
    } else if c == '\u{a}' {
        seq!['\u{5c}', 'n']
    } else if c == '\u{c}' {
        seq!['\u{5c}', 'f']
    } else if c == '\u{d}' {
        seq!['\u{5c}', 'r']
    } else if c <= '\u{f}' {
        seq!['\u{5c}', 'u', '0', '0', '0', hex_char(c as int)]
    } else if c <= '\u{1f}' {
        seq!['\u{5c}', 'u', '0', '0', '1', hex_char(c as int - 16)]
    } else {
        seq![c]
    }
}

/// What stands for a text inside a JSON string.
pub open spec fn escaped(s: Seq<char>) -> Seq<char>
    decreases s.len(),
{
    if s.len() == 0 {
        Seq::empty()
    } else {
        escaped_char(s[0]) + escaped(s.drop_first())
    }
}

/// The number that a sequence of digits denotes in base ten.
pub open spec fn decimal_value(digits: Seq<char>) -> int
    decreases digits.len(),
{
    if digits.len() == 0 {
        0
    } else {
        decimal_value(digits.drop_last()) * 10 + (digits.last() as int - '0' as int)
    }
}

/// Whether `s` consists of ASCII digits only.
pub open spec fn all_digits(s: Seq<char>) -> bool {
    forall|i: int| 0 <= i < s.len() ==> is_digit(#[trigger] s[i])
}

/// `s` without its sign, where it starts with one.
pub open spec fn unsigned_part(s: Seq<char>) -> Seq<char> {
    if s.len() > 0 && (s[0] == '-' || s[0] == '+') {
        s.drop_first()
    } else {
        s
    }
}

/// The integer that `s` denotes: an optional sign followed by at least one
/// digit, with nothing around it, and in the range of `i64`.
pub open spec fn parsed_i64(s: Seq<char>) -> Option<i64> {
    let digits = unsigned_part(s);
    let magnitude = decimal_value(digits);
    let value = if s.len() > 0 && s[0] == '-' { -magnitude } else { magnitude };
    if digits.len() > 0 && all_digits(digits) && i64::MIN <= value <= i64::MAX {
        Some(value as i64)
    } else {
        None
    }
}

/// The characters with Unicode's `White_Space` property.
pub open spec fn is_white_space(c: char) -> bool {
    ||| '\u{9}' <= c <= '\u{d}'
    ||| c == '\u{20}'
    ||| c == '\u{85}'
    ||| c == '\u{a0}'
    ||| c == '\u{1680}'
    ||| '\u{2000}' <= c <= '\u{200a}'
    ||| c == '\u{2028}'
    ||| c == '\u{2029}'
    ||| c == '\u{202f}'
    ||| c == '\u{205f}'
    ||| c == '\u{3000}'
}

/// `s` without the white space at its two ends.
pub open spec fn trimmed(s: Seq<char>) -> Seq<char>
    decreases s.len(),
{
    if s.len() > 0 && is_white_space(s[0]) {
        trimmed(s.drop_first())
    } else if s.len() > 0 && is_white_space(s.last()) {
        trimmed(s.drop_last())
    } else {
        s
    }
}

/// A numeral has digits only, at least one of them, and denotes its number.
pub proof fn decimal_denotes(n: nat)
    ensures
        decimal(n).len() > 0,
        all_digits(decimal(n)),
        decimal_value(decimal(n)) == n,
    decreases n,
{
    reveal_with_fuel(decimal_value, 2);
    if n < 10 {
        assert(decimal(n).drop_last() =~= Seq::<char>::empty());
    } else {
        decimal_denotes(n / 10);
        assert(decimal(n).drop_last() =~= decimal(n / 10));
    }
}

/// Printing an integer and parsing the text gives the integer back.
pub proof fn printed_integers_parse(i: i64)
    ensures
        parsed_i64(int_text(i as int)) == Some(i),
{
    let n: nat = if i < 0 { (-i) as nat } else { i as nat };
    decimal_denotes(n);
    let s = int_text(i as int);
    if i < 0 {
        assert(s.drop_first() =~= decimal(n));
    } else {
        assert(is_digit(decimal(n)[0]));
    }
}

/// Different integers have different numerals.
pub proof fn numerals_are_distinct(i: int, j: int)
    requires
        int_text(i) == int_text(j),
    ensures
        i == j,
{
    let m: nat = if i < 0 { (-i) as nat } else { i as nat };
    let n: nat = if j < 0 { (-j) as nat } else { j as nat };
    decimal_denotes(m);
    decimal_denotes(n);
    assert(is_digit(decimal(m)[0]));
    assert(is_digit(decimal(n)[0]));
    if i < 0 && j < 0 {
        assert(int_text(i).drop_first() =~= decimal(m));
        assert(int_text(j).drop_first() =~= decimal(n));
    } else if i < 0 {
        assert(int_text(i)[0] == '-');
    } else if j < 0 {
        assert(int_text(j)[0] == '-');
    }
}

/// A numeral contains no white space, so trimming leaves it alone.
pub proof fn numerals_need_no_trimming(i: int)
    ensures
        trimmed(int_text(i)) == int_text(i),
{
    let n: nat = if i < 0 { (-i) as nat } else { i as nat };
    decimal_denotes(n);
    let digits = decimal(n);
    assert(is_digit(digits[0]));
    assert(is_digit(digits.last()));
    assert(int_text(i).last() == digits.last());
}

/// The text of a single digit.
fn digit_text(d: u64) -> (r: &'static str)
    requires
        d < 10,
    ensures
        r@ =~= seq![digit_char(d as int)],
{
    proof {
        reveal_strlit("0");
        reveal_strlit("1");
        reveal_strlit("2");
        reveal_strlit("3");
        reveal_strlit("4");
        reveal_strlit("5");
        reveal_strlit("6");
        reveal_strlit("7");
        reveal_strlit("8");
        reveal_strlit("9");
    }
    if d == 0 {
        "0"
    } else if d == 1 {
        "1"
    } else if d == 2 {
        "2"
    } else if d == 3 {
        "3"
    } else if d == 4 {
        "4"
    } else if d == 5 {
        "5"
    } else if d == 6 {
        "6"
    } else if d == 7 {
        "7"
    } else if d == 8 {
        "8"
    } else {
        "9"
    }
}

/// The text of a hexadecimal digit.
fn hex_text(d: u32) -> (r: &'static str)
    requires
        d < 16,
    ensures
        r@ =~= seq![hex_char(d as int)],
{
    proof {
        reveal_strlit("a");
        reveal_strlit("b");
        reveal_strlit("c");
        reveal_strlit("d");
        reveal_strlit("e");
        reveal_strlit("f");
    }
    if d < 10 {
        digit_text(d as u64)
    } else if d == 10 {
        "a"
    } else if d == 11 {
        "b"
    } else if d == 12 {
        "c"
    } else if d == 13 {
        "d"
    } else if d == 14 {
        "e"
    } else {
        "f"
    }
}

/// Appends what stands for the character at `i` inside a JSON string.
fn append_escaped(text: &mut String, s: &str, i: usize)
    requires
        i < s@.len(),
        i < usize::MAX,
    ensures
        final(text)@ == old(text)@ + escaped_char(s@[i as int]),
{
    let ghost before = text@;
    let c: char = s.get_char(i);
    proof {
        reveal_strlit("\\\"");
        reveal_strlit("\\\\");
        reveal_strlit("\\b");
        reveal_strlit("\\t");
        reveal_strlit("\\n");
        reveal_strlit("\\f");
        reveal_strlit("\\r");
        reveal_strlit("\\u000");
        reveal_strlit("\\u001");
    }
    if c == '\u{22}' {
        text.append("\\\"");
    } else if c == '\u{5c}' {
        text.append("\\\\");
    } else if c == '\u{8}' {
        text.append("\\b");
    } else if c == '\u{9}' {
        text.append("\\t");
    } else if c == '\u{a}' {
        text.append("\\n");
    } else if c == '\u{c}' {
        text.append("\\f");
    } else if c == '\u{d}' {
        text.append("\\r");
    } else if c <= '\u{f}' {
        text.append("\\u000");
        text.append(hex_text(c as u32));
    } else if c <= '\u{1f}' {
        text.append("\\u001");
        text.append(hex_text(c as u32 - 16));
    } else {
        text.append(s.substring_char(i, i + 1));
    }
    assert(text@ =~= before + escaped_char(c));
}

/// What stands for the last character of a text stands last.
proof fn escaped_grows(s: Seq<char>, c: char)
    ensures
        escaped(s.push(c)) == escaped(s) + escaped_char(c),
    decreases s.len(),
{
    reveal_with_fuel(escaped, 2);
    let t = s.push(c);
    if s.len() == 0 {
        assert(t.drop_first() =~= Seq::empty());
        assert(escaped(t) =~= escaped(s) + escaped_char(c));
    } else {
        escaped_grows(s.drop_first(), c);
        assert(t.drop_first() =~= s.drop_first().push(c));
        assert(escaped(t) =~= escaped(s) + escaped_char(c));
    }
}

/// The text that stands for `s` inside a JSON string.
pub fn escape(s: &str) -> (r: String)
    ensures
        r@ == escaped(s@),
{
    let len: usize = s.unicode_len();
    let mut text = String::new();
    let mut i: usize = 0;
    assert(s@.take(0) =~= Seq::empty());
    assert(text@ =~= escaped(s@.take(0)));
    while i < len
        invariant
            i <= len,
            len == s@.len(),
            text@ == escaped(s@.take(i as int)),
        decreases len - i,
    {
        append_escaped(&mut text, s, i);
        proof {
            escaped_grows(s@.take(i as int), s@[i as int]);
            assert(s@.take(i + 1) =~= s@.take(i as int).push(s@[i as int]));
        }
        i = i + 1;
    }
    assert(s@.take(len as int) =~= s@);
    text
}

/// What stands for a character shows where it ends and which character is meant.
proof fn escaped_char_is_read_back(a: char, b: char, after_a: Seq<char>, after_b: Seq<char>)
    requires
        escaped_char(a) + after_a == escaped_char(b) + after_b,
    ensures
        a == b,
        after_a == after_b,
{
    let x = escaped_char(a) + after_a;
    let y = escaped_char(b) + after_b;
    assert(x[0] == y[0]);
    if escaped_char(a).len() > 1 && escaped_char(b).len() > 1 {
        assert(x[1] == y[1]);
    }
    if escaped_char(a).len() == 6 && escaped_char(b).len() == 6 {
        assert(x[4] == y[4]);
        assert(x[5] == y[5]);
    }
    assert(a == b);
    let n = escaped_char(a).len() as int;
    assert(after_a =~= x.skip(n));
    assert(after_b =~= y.skip(n));
}

/// Inside a JSON document an escaped text between quotes can be read back: it
/// shows where it ends, and which text it stands for.
pub proof fn escaped_texts_are_read_back(
    a: Seq<char>,
    b: Seq<char>,
    after_a: Seq<char>,
    after_b: Seq<char>,
)
    requires
        escaped(a) + seq!['\u{22}'] + after_a == escaped(b) + seq!['\u{22}'] + after_b,
    ensures
        a == b,
        after_a == after_b,
    decreases a.len(),
{
    let x = escaped(a) + seq!['\u{22}'] + after_a;
    let y = escaped(b) + seq!['\u{22}'] + after_b;
    assert(x[0] == y[0]);
    if a.len() > 0 {
        assert(x[0] == escaped_char(a[0])[0]);
    }
    if b.len() > 0 {
        assert(y[0] == escaped_char(b[0])[0]);
    }
    if a.len() > 0 && b.len() > 0 {
        let rest_a = escaped(a.drop_first()) + seq!['\u{22}'] + after_a;
        let rest_b = escaped(b.drop_first()) + seq!['\u{22}'] + after_b;
        assert(x =~= escaped_char(a[0]) + rest_a);
        assert(y =~= escaped_char(b[0]) + rest_b);
        escaped_char_is_read_back(a[0], b[0], rest_a, rest_b);
        escaped_texts_are_read_back(a.drop_first(), b.drop_first(), after_a, after_b);
        assert(a =~= seq![a[0]] + a.drop_first());
        assert(b =~= seq![b[0]] + b.drop_first());
    } else {
        assert(a =~= b);
        assert(after_a =~= x.skip(1));
        assert(after_b =~= y.skip(1));
    }
}

/// A text without quotes, backslashes and control characters stands for itself.
pub proof fn plain_texts_are_not_escaped(s: Seq<char>)
    requires
        forall|i: int|
            0 <= i < s.len() ==> #[trigger] s[i] >= '\u{20}' && s[i] != '\u{22}' && s[i] != '\u{5c}',
    ensures
        escaped(s) == s,
    decreases s.len(),
{
    if s.len() > 0 {
        let rest = s.drop_first();
        assert forall|i: int| 0 <= i < rest.len() implies #[trigger] rest[i] >= '\u{20}' && rest[i]
            != '\u{22}' && rest[i] != '\u{5c}' by {
            assert(rest[i] == s[i + 1]);
        }
        plain_texts_are_not_escaped(rest);
        assert(escaped(s) =~= s);
    }
}

/// The decimal numeral of an unsigned number.
pub fn u64_text(n: u64) -> (r: String)
    ensures
        r@ == int_text(n as int),
    decreases n,
{
    if n < 10 {
        digit_text(n).to_owned()
    } else {
        let mut text = u64_text(n / 10);
        let ghost before = text@;
        text.append(digit_text(n % 10));
        assert(text@ =~= before.push(digit_char((n % 10) as int)));
        text
    }
}

/// The decimal numeral of a signed number.
pub fn i64_text(i: i64) -> (r: String)
    ensures
        r@ == int_text(i as int),
{
    if i >= 0 {
        u64_text(i as u64)
    } else {
        proof {
            reveal_strlit("-");
        }
        let magnitude: u64 = (-(i + 1)) as u64 + 1;
        let mut text = "-".to_owned();
        let digits = u64_text(magnitude);
        text.append(digits.as_str());
        assert(text@ =~= seq!['-'] + decimal(magnitude as nat));
        text
    }
}

proof fn value_grows(s: Seq<char>, k: int)
    requires
        all_digits(s),
        0 <= k <= s.len(),
    ensures
        0 <= decimal_value(s.take(k)) <= decimal_value(s),
    decreases s.len(),
{
    if k == s.len() {
        assert(s.take(k) =~= s);
        if s.len() > 0 {
            value_grows(s.drop_last(), k - 1);
            assert(is_digit(s.last()));
        }
    } else {
        assert(s.drop_last().take(k) =~= s.take(k));
        value_grows(s.drop_last(), k);
        assert(is_digit(s.last()));
    }
}

/// Parses an integer as `i64::from_str` does.
pub fn parse_i64(s: &str) -> (r: Option<i64>)
    ensures
        r == parsed_i64(s@),
{
    let len: usize = s.unicode_len();
    let negative: bool = len > 0 && s.get_char(0) == '-';
    let signed: bool = negative || (len > 0 && s.get_char(0) == '+');
    let start: usize = if signed { 1 } else { 0 };
    let ghost digits = unsigned_part(s@);
    assert(digits =~= s@.skip(start as int));
    if len == start {
        return None;
    }
    let mut magnitude: u64 = 0;
    let mut i: usize = start;
    while i < len
        invariant
            start <= i <= len,
            len == s@.len(),
            digits =~= s@.skip(start as int),
            digits == unsigned_part(s@),
            all_digits(digits.take(i - start)),
            magnitude == decimal_value(digits.take(i - start)),
            magnitude <= 0x8000_0000_0000_0000,
        decreases len - i,
    {
        let c: char = s.get_char(i);
        let ghost at = i - start;
        assert(digits[at] == c);
        if !('0' <= c && c <= '9') {
            assert(!is_digit(digits[at]));
            return None;
        }
        assert(digits.take(at + 1).drop_last() =~= digits.take(at));
        assert forall|j: int| 0 <= j < at + 1 implies is_digit(#[trigger] digits.take(at + 1)[j]) by {
            if j < at {
                assert(digits.take(at + 1)[j] == digits.take(at)[j]);
            }
        }
        let digit: u64 = (c as u32 - '0' as u32) as u64;
        let next: u128 = magnitude as u128 * 10 + digit as u128;
        assert(next == decimal_value(digits.take(at + 1)));
        if next > 0x8000_0000_0000_0000 {
            proof {
                if all_digits(digits) {
                    value_grows(digits, at + 1);
                }
            }
            return None;
        }
        magnitude = next as u64;
        i = i + 1;
    }
    assert(digits.take(len - start) =~= digits);
    if negative {
        if magnitude == 0x8000_0000_0000_0000 {
            Some(i64::MIN)
        } else {
            Some(-(magnitude as i64))
        }
    } else if magnitude == 0x8000_0000_0000_0000 {
        None
    } else {
        Some(magnitude as i64)
    }
}

/// Whether `c` is white space.
fn white_space(c: char) -> (r: bool)
    ensures
        r == is_white_space(c),
{
    ('\u{9}' <= c && c <= '\u{d}') || c == '\u{20}' || c == '\u{85}' || c == '\u{a0}' || c
        == '\u{1680}' || ('\u{2000}' <= c && c <= '\u{200a}') || c == '\u{2028}' || c == '\u{2029}'
        || c == '\u{202f}' || c == '\u{205f}' || c == '\u{3000}'
}

/// `s` without the white space at its two ends, as `str::trim` gives it.
pub fn trim(s: &str) -> (r: &str)
    ensures
        r@ == trimmed(s@),
{
    let mut from: usize = 0;
    let mut to: usize = s.unicode_len();
    assert(s@.subrange(0, to as int) =~= s@);
    while from < to && white_space(s.get_char(from))
        invariant
            from <= to <= s@.len(),
            trimmed(s@) == trimmed(s@.subrange(from as int, to as int)),
        decreases to - from,
    {
        assert(s@.subrange(from as int, to as int).drop_first() =~= s@.subrange(
            from + 1,
            to as int,
        ));
        from = from + 1;
    }
    while from < to && white_space(s.get_char(to - 1))
        invariant
            from <= to <= s@.len(),
            from < to ==> !is_white_space(s@[from as int]),
            trimmed(s@) == trimmed(s@.subrange(from as int, to as int)),
        decreases to - from,
    {
        assert(s@.subrange(from as int, to as int).drop_last() =~= s@.subrange(
            from as int,
            to - 1,
        ));
        to = to - 1;
    }
    s.substring_char(from, to)
}

/// Calls `core::str::from_utf8`: the text of `bytes` where they are valid
/// UTF-8, and `None` where they are not.
#[verifier::external_body]
pub(crate) fn utf8_text(bytes: &[u8]) -> (r: Option<&str>)
    ensures
        r is Some <==> valid_utf8(bytes@),
        r matches Some(text) ==> text@ == decode_utf8(bytes@),
{
    core::str::from_utf8(bytes).ok()
}

/// The bytes of an owned text.
pub(crate) fn text_bytes(text: &String) -> (r: Vec<u8>)
    ensures
        r@ == encode_utf8(text@),
{
    text.as_str().as_bytes_vec()
}

} // verus!
