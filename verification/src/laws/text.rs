//! What numerals, white space and escapes mean.
use vstd::prelude::*;
use vstd::utf8::{
    decode_utf8, encode_utf8, encode_utf8_decode_utf8, encode_utf8_valid_utf8, valid_utf8,
};

use crate::text::{
    all_digits, decimal, decimal_denotes, decimal_value, escaped, escaped_char, hex_char, int_text,
    is_digit, is_white_space, parsed_i64, trimmed,
};
use crate::write::{hinted_version, version_hint};

verus! {

// ---------------------------------------------------------------------------
// Numerals
// ---------------------------------------------------------------------------

/// Digits denote a number in base ten: one more digit makes it ten times as
/// large and adds what the digit says.
pub proof fn digits_count_in_tens(digits: Seq<char>, c: char)
    ensures
        decimal_value(Seq::empty()) == 0,
        decimal_value(digits.push(c)) == 10 * decimal_value(digits) + (c as int - 48),
{
    assert(digits.push(c).drop_last() =~= digits);
}

/// The ten digits are the characters from `0` to `9`.
pub proof fn digits_are_ten_characters(c: char)
    ensures
        is_digit(c) <==> 48 <= c as int <= 57,
{
}

/// A numeral is made of digits, behind a minus sign where the number is
/// negative. The digits denote the number without its sign.
pub proof fn a_numeral_denotes_its_number(i: int)
    ensures
        i >= 0 ==> int_text(i).len() > 0 && all_digits(int_text(i)) && decimal_value(int_text(i))
            == i,
        i < 0 ==> int_text(i).len() > 1 && int_text(i)[0] == '-' && all_digits(
            int_text(i).drop_first(),
        ) && decimal_value(int_text(i).drop_first()) == -i,
{
    let n: nat = if i < 0 { (-i) as nat } else { i as nat };
    decimal_denotes(n);
    if i < 0 {
        assert(int_text(i).drop_first() =~= decimal(n));
    }
}

/// A numeral has no leading zero: that of a number below ten is one digit, and
/// that of a greater one starts with another digit than `0`.
pub proof fn numerals_have_no_leading_zero(n: nat)
    ensures
        n < 10 ==> int_text(n as int).len() == 1,
        n >= 10 ==> int_text(n as int).len() > 1 && int_text(n as int)[0] != '0',
        int_text(-(n as int)).len() == int_text(n as int).len() + (if n > 0 {
            1int
        } else {
            0
        }),
    decreases n,
{
    if n >= 10 {
        numerals_have_no_leading_zero(n / 10);
        decimal_denotes(n / 10);
        assert(decimal(n)[0] == decimal(n / 10)[0]);
        if n / 10 < 10 {
            assert(decimal(n / 10).drop_last() =~= Seq::<char>::empty());
            reveal_with_fuel(decimal_value, 2);
        }
    }
}

/// Some digits, alone or behind a sign, are read as the number that they denote
/// where 64 bits can hold it, and not at all where they cannot.
pub proof fn digits_are_read_with_their_sign(digits: Seq<char>)
    requires
        digits.len() > 0,
        all_digits(digits),
    ensures
        decimal_value(digits) <= 0x7fff_ffff_ffff_ffff ==> {
            &&& parsed_i64(digits) == Some(decimal_value(digits) as i64)
            &&& parsed_i64(seq!['+'] + digits) == Some(decimal_value(digits) as i64)
        },
        decimal_value(digits) > 0x7fff_ffff_ffff_ffff ==> {
            &&& parsed_i64(digits) is None
            &&& parsed_i64(seq!['+'] + digits) is None
        },
        decimal_value(digits) <= 0x8000_0000_0000_0000 ==> parsed_i64(seq!['-'] + digits) == Some(
            (-decimal_value(digits)) as i64,
        ),
        decimal_value(digits) > 0x8000_0000_0000_0000 ==> parsed_i64(seq!['-'] + digits) is None,
{
    assert((seq!['+'] + digits).drop_first() =~= digits);
    assert((seq!['-'] + digits).drop_first() =~= digits);
    assert(is_digit(digits[0]));
    digits_denote_no_negative_number(digits);
}

/// Digits never denote a negative number.
pub proof fn digits_denote_no_negative_number(digits: Seq<char>)
    requires
        all_digits(digits),
    ensures
        decimal_value(digits) >= 0,
    decreases digits.len(),
{
    if digits.len() > 0 {
        let rest = digits.drop_last();
        assert forall|i: int| 0 <= i < rest.len() implies is_digit(#[trigger] rest[i]) by {
            assert(is_digit(digits[i]));
        }
        digits_denote_no_negative_number(rest);
        assert(is_digit(digits[digits.len() - 1]));
    }
}

/// Leading zeros do not matter.
pub proof fn leading_zeros_do_not_matter(digits: Seq<char>)
    requires
        digits.len() > 0,
        all_digits(digits),
    ensures
        parsed_i64(seq!['0'] + digits) == parsed_i64(digits),
{
    let more = seq!['0'] + digits;
    zeros_add_nothing(digits);
    assert(is_digit(digits[0]));
    assert forall|i: int| 0 <= i < more.len() implies is_digit(#[trigger] more[i]) by {
        if i > 0 {
            assert(is_digit(digits[i - 1]));
        }
    }
}

/// A zero before some digits adds nothing to the number that they denote.
proof fn zeros_add_nothing(digits: Seq<char>)
    ensures
        decimal_value(seq!['0'] + digits) == decimal_value(digits),
    decreases digits.len(),
{
    let more = seq!['0'] + digits;
    if digits.len() == 0 {
        reveal_with_fuel(decimal_value, 2);
        assert(more.drop_last() =~= Seq::empty());
    } else {
        zeros_add_nothing(digits.drop_last());
        assert(more.drop_last() =~= seq!['0'] + digits.drop_last());
    }
}

/// What is no sign and digits is no integer: an empty text, a sign alone, and
/// any text with another character than a digit behind its first place, or with
/// one in its first place that is no sign either.
pub proof fn other_texts_are_no_integers(s: Seq<char>, i: int)
    ensures
        s.len() == 0 ==> parsed_i64(s) is None,
        s.len() == 1 && !is_digit(s[0]) ==> parsed_i64(s) is None,
        0 < i < s.len() && !is_digit(s[i]) ==> parsed_i64(s) is None,
        s.len() > 0 && !is_digit(s[0]) && s[0] != '-' && s[0] != '+' ==> parsed_i64(s) is None,
{
    if s.len() > 0 {
        if 0 < i < s.len() && !is_digit(s[i]) {
            assert(s.drop_first()[i - 1] == s[i]);
        }
    }
}

// ---------------------------------------------------------------------------
// White space
// ---------------------------------------------------------------------------

/// White space is what Unicode counts as it, by the numbers of its characters.
pub proof fn white_space_characters(c: char)
    ensures
        is_white_space(c) <==> {
            ||| 9 <= c as int <= 13
            ||| c as int == 32
            ||| c as int == 133
            ||| c as int == 160
            ||| c as int == 5760
            ||| 8192 <= c as int <= 8202
            ||| c as int == 8232
            ||| c as int == 8233
            ||| c as int == 8239
            ||| c as int == 8287
            ||| c as int == 12288
        },
{
}

/// Whether a text is white space only.
pub open spec fn is_blank(s: Seq<char>) -> bool {
    forall|i: int| 0 <= i < s.len() ==> is_white_space(#[trigger] s[i])
}

/// Trimming takes white space off the two ends of a text, all of it and nothing
/// else.
pub proof fn trimming_takes_white_space_off(s: Seq<char>)
    ensures
        exists|before: Seq<char>, after: Seq<char>|
            {
                &&& is_blank(before)
                &&& is_blank(after)
                &&& s == #[trigger] (before + trimmed(s) + after)
            },
        trimmed(s).len() > 0 ==> !is_white_space(trimmed(s)[0]) && !is_white_space(
            trimmed(s).last(),
        ),
    decreases s.len(),
{
    if s.len() > 0 && is_white_space(s[0]) {
        let rest = s.drop_first();
        trimming_takes_white_space_off(rest);
        let (before, after) = choose|before: Seq<char>, after: Seq<char>|
            {
                &&& is_blank(before)
                &&& is_blank(after)
                &&& rest == #[trigger] (before + trimmed(rest) + after)
            };
        let longer = seq![s[0]] + before;
        assert(is_blank(longer));
        assert(s =~= seq![s[0]] + rest);
        assert(longer + trimmed(s) + after =~= seq![s[0]] + (before + trimmed(rest) + after));
        assert(s == longer + trimmed(s) + after);
    } else if s.len() > 0 && is_white_space(s.last()) {
        let rest = s.drop_last();
        trimming_takes_white_space_off(rest);
        let (before, after) = choose|before: Seq<char>, after: Seq<char>|
            {
                &&& is_blank(before)
                &&& is_blank(after)
                &&& rest == #[trigger] (before + trimmed(rest) + after)
            };
        let longer = after.push(s.last());
        assert(is_blank(longer));
        assert(s =~= rest.push(s.last()));
        assert(before + trimmed(s) + longer =~= (before + trimmed(rest) + after).push(s.last()));
        assert(s == before + trimmed(s) + longer);
    } else {
        assert(is_blank(Seq::empty()));
        assert(s =~= Seq::empty() + trimmed(s) + Seq::empty());
    }
}

/// White space around a text that has none at its ends does not matter.
pub proof fn surrounding_white_space_does_not_matter(
    before: Seq<char>,
    core: Seq<char>,
    after: Seq<char>,
)
    requires
        is_blank(before),
        is_blank(after),
        core.len() > 0,
        !is_white_space(core[0]),
        !is_white_space(core.last()),
    ensures
        trimmed(before + core + after) == core,
    decreases before.len() + after.len(),
{
    let s = before + core + after;
    if before.len() > 0 {
        assert(is_white_space(before[0]));
        assert(s[0] == before[0]);
        assert(s.drop_first() =~= before.drop_first() + core + after);
        assert forall|i: int| 0 <= i < before.drop_first().len() implies is_white_space(
            #[trigger] before.drop_first()[i],
        ) by {
            assert(is_white_space(before[i + 1]));
        }
        surrounding_white_space_does_not_matter(before.drop_first(), core, after);
    } else if after.len() > 0 {
        assert(is_white_space(after[after.len() - 1]));
        assert(s[0] == core[0]);
        assert(s.last() == after.last());
        assert(s.drop_last() =~= before + core + after.drop_last());
        assert forall|i: int| 0 <= i < after.drop_last().len() implies is_white_space(
            #[trigger] after.drop_last()[i],
        ) by {
            assert(is_white_space(after[i]));
        }
        surrounding_white_space_does_not_matter(before, core, after.drop_last());
    } else {
        assert(s =~= core);
    }
}

// ---------------------------------------------------------------------------
// The version hint
// ---------------------------------------------------------------------------

/// A version hint is the numeral of its snapshot in UTF-8, with nothing around
/// it.
pub proof fn a_hint_is_a_numeral(snapshot_id: i64)
    ensures
        valid_utf8(version_hint(snapshot_id)),
        decode_utf8(version_hint(snapshot_id)) == int_text(snapshot_id as int),
{
    encode_utf8_valid_utf8(int_text(snapshot_id as int));
    encode_utf8_decode_utf8(int_text(snapshot_id as int));
}

/// A version hint is read as the integer in it, whatever white space stands
/// around that, and bytes that are no text are no version hint.
pub proof fn a_hint_is_read_as_its_integer(
    before: Seq<char>,
    core: Seq<char>,
    after: Seq<char>,
    bytes: Seq<u8>,
)
    requires
        is_blank(before),
        is_blank(after),
        core.len() > 0,
        !is_white_space(core[0]),
        !is_white_space(core.last()),
    ensures
        hinted_version(encode_utf8(before + core + after)) == parsed_i64(core),
        !valid_utf8(bytes) ==> hinted_version(bytes) is None,
{
    encode_utf8_valid_utf8(before + core + after);
    encode_utf8_decode_utf8(before + core + after);
    surrounding_white_space_does_not_matter(before, core, after);
}

// ---------------------------------------------------------------------------
// Escapes
// ---------------------------------------------------------------------------

/// Texts are escaped character by character.
pub proof fn characters_are_escaped_one_by_one(a: Seq<char>, b: Seq<char>, c: char)
    ensures
        escaped(Seq::empty()).len() == 0,
        escaped(seq![c]) == escaped_char(c),
        escaped(a + b) == escaped(a) + escaped(b),
    decreases a.len(),
{
    reveal_with_fuel(escaped, 2);
    assert(seq![c].drop_first() =~= Seq::empty());
    assert(escaped(seq![c]) =~= escaped_char(c));
    if a.len() == 0 {
        assert(a + b =~= b);
        assert(escaped(a) + escaped(b) =~= escaped(b));
    } else {
        characters_are_escaped_one_by_one(a.drop_first(), b, c);
        assert((a + b).drop_first() =~= a.drop_first() + b);
        assert(escaped(a + b) =~= escaped(a) + escaped(b));
    }
}

/// The number that a lower-case hexadecimal digit stands for.
pub open spec fn hex_value(c: char) -> int {
    if c as int >= 97 {
        c as int - 87
    } else {
        c as int - 48
    }
}

/// A hexadecimal digit stands for its number.
pub proof fn hexadecimal_digits_stand_for_their_numbers(d: int)
    requires
        0 <= d < 16,
    ensures
        hex_value(hex_char(d)) == d,
        48 <= hex_char(d) as int <= 57 || 97 <= hex_char(d) as int <= 102,
{
}

/// What stands for a character: from the space on the character itself, but for
/// the quote and the backslash, which stand behind a backslash. Below the space
/// there are five short escapes; any other character is `\u` and its number in
/// four hexadecimal digits.
pub proof fn escapes_stand_for_their_characters(c: char)
    ensures
        ({
            let e = escaped_char(c);
            let n = c as int;
            &&& n >= 32 && n != 34 && n != 92 ==> e == seq![c]
            &&& n == 34 || n == 92 ==> e == seq!['\\', c]
            &&& n == 8 ==> e == seq!['\\', 'b']
            &&& n == 9 ==> e == seq!['\\', 't']
            &&& n == 10 ==> e == seq!['\\', 'n']
            &&& n == 12 ==> e == seq!['\\', 'f']
            &&& n == 13 ==> e == seq!['\\', 'r']
            &&& n < 32 && n != 8 && n != 9 && n != 10 && n != 12 && n != 13 ==> {
                &&& e.len() == 6
                &&& e[0] == '\\' && e[1] == 'u' && e[2] == '0' && e[3] == '0'
                &&& 16 * hex_value(e[4]) + hex_value(e[5]) == n
                &&& 48 <= e[5] as int <= 57 || 97 <= e[5] as int <= 102
            }
        }),
{
}

} // verus!
