//! Decimal text handling: parsing skill scores as signed bytes, and
//! rendering the numbers that the dashboard shows (plain, sign-prefixed,
//! and space-padded fields).

use vstd::prelude::*;
use vstd::string::{StrSliceExecFns, StringExecFns};

verus! {

/// `c` is one of the ten ASCII decimal digits.
pub open spec fn is_dec_digit(c: char) -> bool {
    48 <= c as u32 <= 57
}

/// Numeric value of an ASCII decimal digit.
pub open spec fn digit_val(c: char) -> int {
    c as u32 - 48
}

/// Every character of `s` is an ASCII decimal digit.
pub open spec fn all_dec_digits(s: Seq<char>) -> bool {
    forall|i: int| 0 <= i < s.len() ==> is_dec_digit(#[trigger] s[i])
}

/// Value of a digit string read in base ten; 0 for the empty string.
pub open spec fn dec_value(s: Seq<char>) -> int
    decreases s.len(),
{
    if s.len() == 0 {
        0
    } else {
        dec_value(s.drop_last()) * 10 + digit_val(s.last())
    }
}

/// The ASCII digit character with value `d`.
pub open spec fn spec_digit_char(d: int) -> char {
    if d == 0 {
        '0'
    } else if d == 1 {
        '1'
    } else if d == 2 {
        '2'
    } else if d == 3 {
        '3'
    } else if d == 4 {
        '4'
    } else if d == 5 {
        '5'
    } else if d == 6 {
        '6'
    } else if d == 7 {
        '7'
    } else if d == 8 {
        '8'
    } else {
        '9'
    }
}

/// Shortest decimal rendering of a nonnegative number.
pub open spec fn spec_dec_str(n: nat) -> Seq<char>
    decreases n,
{
    if n < 10 {
        seq![spec_digit_char(n as int)]
    } else {
        spec_dec_str(n / 10) + seq![spec_digit_char((n % 10) as int)]
    }
}

/// Decimal rendering with an explicit sign, as the dashboard shows
/// modifiers and bonuses: `+2`, `+0`, `-1`.
pub open spec fn spec_signed_str(v: int) -> Seq<char> {
    if v >= 0 {
        seq!['+'] + spec_dec_str(v as nat)
    } else {
        seq!['-'] + spec_dec_str((-v) as nat)
    }
}

/// `n` space characters.
pub open spec fn spec_spaces(n: nat) -> Seq<char>
    decreases n,
{
    if n == 0 {
        Seq::empty()
    } else {
        spec_spaces((n - 1) as nat).push(' ')
    }
}

/// `s` padded on the right with spaces up to `width` characters;
/// a string already that wide is left alone.
pub open spec fn spec_padded(s: Seq<char>, width: nat) -> Seq<char> {
    if s.len() >= width {
        s
    } else {
        s + spec_spaces((width - s.len()) as nat)
    }
}

/// The digit part of a signed-byte literal: everything after a leading
/// `+` or `-`, or the whole string when no sign is present.
pub open spec fn spec_i8_digits(s: Seq<char>) -> Seq<char> {
    if s.len() > 0 && (s[0] == '+' || s[0] == '-') {
        s.subrange(1, s.len() as int)
    } else {
        s
    }
}

/// The string carries a leading minus sign.
pub open spec fn spec_i8_negative(s: Seq<char>) -> bool {
    s.len() > 0 && s[0] == '-'
}

/// `s` is a signed-byte literal: an optional sign, then one or more
/// decimal digits, with a value that fits in a signed byte. No other
/// characters (no spaces, no other signs) are allowed anywhere.
pub open spec fn is_valid_i8_string(s: Seq<char>) -> bool {
    let body = spec_i8_digits(s);
    &&& body.len() > 0
    &&& all_dec_digits(body)
    &&& (if spec_i8_negative(s) {
        dec_value(body) <= 128
    } else {
        dec_value(body) <= 127
    })
}

/// Value of a valid signed-byte literal.
pub open spec fn spec_i8_value(s: Seq<char>) -> int {
    if spec_i8_negative(s) {
        -dec_value(spec_i8_digits(s))
    } else {
        dec_value(spec_i8_digits(s))
    }
}

pub proof fn lemma_dec_value_nonneg(s: Seq<char>)
    requires
        all_dec_digits(s),
    ensures
        dec_value(s) >= 0,
    decreases s.len(),
{
    if s.len() > 0 {
        assert(all_dec_digits(s.drop_last()));
        lemma_dec_value_nonneg(s.drop_last());
    }
}

/// Reading further digits never shrinks the value: the value of a digit
/// string is at least the value of any of its prefixes.
pub proof fn lemma_dec_value_prefix_le(s: Seq<char>, i: int)
    requires
        all_dec_digits(s),
        0 <= i <= s.len(),
    ensures
        dec_value(s.subrange(0, i)) <= dec_value(s),
    decreases s.len() - i,
{
    if i == s.len() {
        assert(s.subrange(0, i) =~= s);
    } else {
        let shorter = s.subrange(0, i);
        let longer = s.subrange(0, i + 1);
        assert(longer.drop_last() =~= shorter);
        assert(all_dec_digits(shorter));
        lemma_dec_value_nonneg(shorter);
        assert(dec_value(longer) == dec_value(shorter) * 10 + digit_val(longer.last()));
        lemma_dec_value_prefix_le(s, i + 1);
    }
}

/// Parses `s` as a signed byte, with exactly the grammar that
/// `is_valid_i8_string` states; anything else is rejected.
pub fn parse_i8(s: &str) -> (r: Option<i8>)
    ensures
        match r {
            Some(n) => is_valid_i8_string(s@) && n as int == spec_i8_value(s@),
            None => !is_valid_i8_string(s@),
        },
{
    let len = s.unicode_len();
    if len == 0 {
        return None;
    }
    let c0 = s.get_char(0);
    let neg = c0 == '-';
    let start: usize = if c0 == '-' || c0 == '+' {
        1
    } else {
        0
    };
    let ghost body = spec_i8_digits(s@);
    proof {
        assert(body =~= s@.subrange(start as int, len as int));
    }
    if start >= len {
        return None;
    }
    let mut acc: u32 = 0;
    let mut i: usize = start;
    while i < len
        invariant
            start <= i <= len,
            len == s@.len(),
            start == 1 ==> (s@[0] == '-' || s@[0] == '+'),
            neg == spec_i8_negative(s@),
            body == spec_i8_digits(s@),
            body =~= s@.subrange(start as int, len as int),
            all_dec_digits(s@.subrange(start as int, i as int)),
            acc as int == dec_value(s@.subrange(start as int, i as int)),
            acc <= 128,
        decreases len - i,
    {
        let c = s.get_char(i);
        let cv = c as u32;
        let ghost sofar = s@.subrange(start as int, i as int);
        let ghost upto = s@.subrange(start as int, i + 1);
        proof {
            assert(upto.drop_last() =~= sofar);
            assert(upto.last() == s@[i as int]);
        }
        if !(48 <= cv && cv <= 57) {
            proof {
                assert(body[i - start] == s@[i as int]);
                assert(!all_dec_digits(body));
            }
            return None;
        }
        acc = acc * 10 + (cv - 48);
        assert(all_dec_digits(upto));
        if acc > 128 {
            proof {
                if all_dec_digits(body) {
                    lemma_dec_value_prefix_le(body, i + 1 - start);
                    assert(body.subrange(0, i + 1 - start) =~= upto);
                }
            }
            return None;
        }
        i = i + 1;
    }
    proof {
        assert(s@.subrange(start as int, len as int) =~= body);
        assert(all_dec_digits(body));
        assert(acc as int == dec_value(body));
    }
    if neg {
        let m: i16 = 0 - (acc as i16);
        Some(m as i8)
    } else {
        if acc > 127 {
            return None;
        }
        Some(acc as i8)
    }
}

/// The ASCII digit with value `d`, as a string.
fn digit_str(d: u8) -> (r: &'static str)
    requires
        d < 10,
    ensures
        r@ == seq![spec_digit_char(d as int)],
{
    let r = match d {
        0 => "0",
        1 => "1",
        2 => "2",
        3 => "3",
        4 => "4",
        5 => "5",
        6 => "6",
        7 => "7",
        8 => "8",
        _ => "9",
    };
    proof {
        reveal_strlit("0");
        reveal_strlit("1");
        reveal_strlit("2");
        reveal_strlit("3");
        reveal_strlit("4");
        reveal_strlit("5");
        reveal_strlit("6");
        reveal_strlit("7");
        reveal_strlit("8");
        reveal_strlit("9");
        assert(r@ =~= seq![spec_digit_char(d as int)]);
    }
    r
}

/// Renders a number in decimal, shortest form.
pub fn u8_to_string(n: u8) -> (s: String)
    ensures
        s@ == spec_dec_str(n as nat),
    decreases n,
{
    if n < 10 {
        String::from_str(digit_str(n))
    } else {
        let mut s = u8_to_string(n / 10);
        s.append(digit_str(n % 10));
        proof {
            assert(s@ =~= spec_dec_str(n as nat));
        }
        s
    }
}

/// Renders a signed value with an explicit sign, the way the dashboard
/// shows modifiers: `+2`, `+0`, `-1`.
pub fn i8_signed_string(n: i8) -> (s: String)
    ensures
        s@ == spec_signed_str(n as int),
{
    proof {
        reveal_strlit("+");
        reveal_strlit("-");
    }
    if n >= 0 {
        let mut s = String::from_str("+");
        let digits = u8_to_string(n as u8);
        s.append(digits.as_str());
        proof {
            assert(s@ =~= spec_signed_str(n as int));
        }
        s
    } else {
        let m: i16 = 0 - (n as i16);
        let mut s = String::from_str("-");
        let digits = u8_to_string(m as u8);
        s.append(digits.as_str());
        proof {
            assert(s@ =~= spec_signed_str(n as int));
        }
        s
    }
}

/// Pads `s` on the right with spaces to `width` characters, as the
/// skill list aligns its columns; a wider string is returned unchanged.
pub fn pad_right(s: &str, width: usize) -> (r: String)
    ensures
        r@ == spec_padded(s@, width as nat),
{
    proof {
        reveal_strlit(" ");
    }
    let mut r = s.to_owned();
    let mut count = s.unicode_len();
    if count >= width {
        proof {
            assert(r@ =~= spec_padded(s@, width as nat));
        }
        return r;
    }
    while count < width
        invariant
            s@.len() <= count <= width,
            r@ == s@ + spec_spaces((count - s@.len()) as nat),
        decreases width - count,
    {
        r.append(" ");
        count = count + 1;
        proof {
            reveal_strlit(" ");
            assert(r@ =~= s@ + spec_spaces((count - s@.len()) as nat));
        }
    }
    proof {
        assert(r@ =~= spec_padded(s@, width as nat));
    }
    r
}

} // verus!
