//! The sheet store's text format: the document written at shutdown and
//! read back at startup. The format is a fixed JSON layout — two-space
//! indent, the sections and fields in the order of the records — so both
//! directions are specified exactly and the round trip is proved: parsing
//! a saved document yields the sheet that was saved.
//!
//! Text is carried as `Vec<char>`; the boundary turns it into bytes.

use vstd::prelude::*;
use vstd::string::{StrSliceExecFns, StringExecFns};
use vstd::std_specs::vec::vec_index;
use crate::sheet::{
    CharSheet, CharSheetV, Health, HealthV, Information, InformationV, ProficienciesAndLanguage,
    ProficienciesAndLanguageV, SavingThrows, Skills, SkillsV, Statistics,
};
use vstd::arithmetic::div_mod::lemma_fundamental_div_mod;
use crate::numbers::{
    all_dec_digits, dec_value, is_dec_digit, lemma_dec_value_prefix_le,
    spec_dec_str, spec_digit_char, u8_to_string,
};

verus! {

/// The lowercase hexadecimal digit with value `d`.
pub open spec fn spec_hex_char(d: int) -> char {
    if d == 0 {
        '0'
    } else if d == 1 {
        '1'
    } else if d == 2 {
        '2'
    } else if d == 3 {
        '3'
    } else if d == 4 {
        '4'
    } else if d == 5 {
        '5'
    } else if d == 6 {
        '6'
    } else if d == 7 {
        '7'
    } else if d == 8 {
        '8'
    } else if d == 9 {
        '9'
    } else if d == 10 {
        'a'
    } else if d == 11 {
        'b'
    } else if d == 12 {
        'c'
    } else if d == 13 {
        'd'
    } else if d == 14 {
        'e'
    } else {
        'f'
    }
}

/// `c` is a decimal digit or a lowercase `a` through `f`.
pub open spec fn is_hex_lower(c: char) -> bool {
    is_dec_digit(c) || 97 <= c as u32 <= 102
}

/// Value of a lowercase hexadecimal digit.
pub open spec fn hex_val(c: char) -> int {
    if is_dec_digit(c) {
        c as u32 - 48
    } else {
        c as u32 - 87
    }
}

/// The character a pair of hexadecimal digits denotes.
pub open spec fn hex_pair_char(h1: char, h2: char) -> char {
    ((hex_val(h1) * 16 + hex_val(h2)) as u32) as char
}

/// A character as it appears inside a string literal of the document:
/// quotes and backslashes carry a backslash, control characters become
/// a four-digit escape so the document stays valid JSON, and everything
/// else stands as itself.
pub open spec fn esc_char(c: char) -> Seq<char> {
    if c == '"' || c == '\\' {
        seq!['\\', c]
    } else if (c as u32) < 32 {
        seq!['\\', 'u', '0', '0', spec_hex_char((c as u32 / 16) as int), spec_hex_char((c as u32 % 16) as int)]
    } else {
        seq![c]
    }
}

/// A text value as it appears inside a string literal of the document.
pub open spec fn escape(s: Seq<char>) -> Seq<char>
    decreases s.len(),
{
    if s.len() == 0 {
        Seq::empty()
    } else {
        esc_char(s[0]) + escape(s.drop_first())
    }
}

/// Escaping works one character at a time, from either end.
proof fn lemma_escape_snoc(s: Seq<char>, c: char)
    ensures
        escape(s.push(c)) == escape(s) + esc_char(c),
    decreases s.len(),
{
    if s.len() == 0 {
        assert(s.push(c)[0] == c);
        assert(s.push(c).drop_first() =~= Seq::<char>::empty());
        assert(escape(Seq::<char>::empty()) == Seq::<char>::empty());
        assert(escape(s.push(c)) =~= escape(s) + esc_char(c));
    } else {
        assert(s.push(c)[0] == s[0]);
        assert(s.push(c).drop_first() =~= s.drop_first().push(c));
        lemma_escape_snoc(s.drop_first(), c);
        assert(escape(s.push(c)) =~= escape(s) + esc_char(c));
    }
}

/// The text of a boolean field value.
pub open spec fn spec_bool_str(b: bool) -> Seq<char> {
    if b {
        "true"@
    } else {
        "false"@
    }
}

/// Appends a literal to the output text.
fn push_lit(out: &mut Vec<char>, lit: &str)
    ensures
        final(out)@ == old(out)@ + lit@,
{
    let n = lit.unicode_len();
    let mut k: usize = 0;
    while k < n
        invariant
            n == lit@.len(),
            k <= n,
            out@ == old(out)@ + lit@.subrange(0, k as int),
        decreases n - k,
    {
        out.push(lit.get_char(k));
        k = k + 1;
        proof {
            assert(lit@.subrange(0, k as int) =~= lit@.subrange(0, k - 1).push(lit@[k - 1]));
            assert(out@ =~= old(out)@ + lit@.subrange(0, k as int));
        }
    }
    proof {
        assert(lit@.subrange(0, n as int) =~= lit@);
    }
}


/// Appends a number in decimal.
fn push_u8_dec(out: &mut Vec<char>, n: u8)
    ensures
        final(out)@ == old(out)@ + spec_dec_str(n as nat),
{
    let s = u8_to_string(n);
    push_lit(out, s.as_str());
}

/// Appends a boolean literal.
fn push_bool(out: &mut Vec<char>, b: bool)
    ensures
        final(out)@ == old(out)@ + spec_bool_str(b),
{
    if b {
        push_lit(out, "true");
    } else {
        push_lit(out, "false");
    }
}

/// Position after an expected literal at `i`, or nothing if the text
/// there differs from it.
pub open spec fn sp_lit(t: Seq<char>, i: int, lit: Seq<char>) -> Option<int> {
    if 0 <= i && i + lit.len() <= t.len() && t.subrange(i, i + lit.len()) == lit {
        Some(i + lit.len())
    } else {
        None
    }
}

/// The string-literal body starting at `i` (the opening quote already
/// read): the unescaped text and the position after the closing quote.
/// Besides themselves, a backslash may introduce an escaped quote, an
/// escaped backslash, or a four-digit escape of a single-byte character.
pub open spec fn sp_string(t: Seq<char>, i: int) -> Option<(Seq<char>, int)>
    decreases t.len() - i,
{
    if i < 0 || i >= t.len() {
        None
    } else if t[i] == '"' {
        Some((Seq::empty(), i + 1))
    } else if t[i] == '\\' {
        if i + 1 < t.len() && (t[i + 1] == '"' || t[i + 1] == '\\') {
            match sp_string(t, i + 2) {
                Some((s, j)) => Some((seq![t[i + 1]] + s, j)),
                None => None,
            }
        } else if i + 5 < t.len() && t[i + 1] == 'u' && t[i + 2] == '0' && t[i + 3] == '0'
            && is_hex_lower(t[i + 4]) && is_hex_lower(t[i + 5]) {
            match sp_string(t, i + 6) {
                Some((s, j)) => Some((seq![hex_pair_char(t[i + 4], t[i + 5])] + s, j)),
                None => None,
            }
        } else {
            None
        }
    } else {
        match sp_string(t, i + 1) {
            Some((s, j)) => Some((seq![t[i]] + s, j)),
            None => None,
        }
    }
}

/// End of the digit run that starts at `i`.
pub open spec fn sp_digits(t: Seq<char>, i: int) -> int
    decreases t.len() - i,
{
    if 0 <= i && i < t.len() && is_dec_digit(t[i]) {
        sp_digits(t, i + 1)
    } else {
        i
    }
}

/// The number at `i`: a nonempty digit run whose value fits in a byte,
/// and the position after it.
pub open spec fn sp_u8(t: Seq<char>, i: int) -> Option<(u8, int)> {
    let j = sp_digits(t, i);
    if 0 <= i && j > i && dec_value(t.subrange(i, j)) <= 255 {
        Some((dec_value(t.subrange(i, j)) as u8, j))
    } else {
        None
    }
}

/// The boolean literal at `i` and the position after it.
pub open spec fn sp_bool(t: Seq<char>, i: int) -> Option<(bool, int)> {
    match sp_lit(t, i, "true"@) {
        Some(j) => Some((true, j)),
        None => match sp_lit(t, i, "false"@) {
            Some(j) => Some((false, j)),
            None => None,
        },
    }
}

/// The digit run is made of digits and ends at the first non-digit.
proof fn lemma_sp_digits_props(t: Seq<char>, i: int)
    requires
        0 <= i <= t.len(),
    ensures
        i <= sp_digits(t, i) <= t.len(),
        forall|k: int| i <= k < sp_digits(t, i) ==> is_dec_digit(t[k]),
        sp_digits(t, i) == t.len() || !is_dec_digit(t[sp_digits(t, i)]),
    decreases t.len() - i,
{
    if i < t.len() && is_dec_digit(t[i]) {
        lemma_sp_digits_props(t, i + 1);
    }
}

/// Reads an expected literal.
fn read_lit(t: &Vec<char>, i: usize, lit: &str) -> (r: Option<usize>)
    ensures
        match r {
            Some(j) => sp_lit(t@, i as int, lit@) == Some(j as int),
            None => sp_lit(t@, i as int, lit@) is None,
        },
{
    let n = lit.unicode_len();
    if i > t.len() || t.len() - i < n {
        return None;
    }
    let mut k: usize = 0;
    while k < n
        invariant
            n == lit@.len(),
            i + n <= t@.len(),
            t@.len() <= usize::MAX,
            k <= n,
            forall|m: int| 0 <= m < k ==> t@[i + m] == lit@[m],
        decreases n - k,
    {
        if t[i + k] != lit.get_char(k) {
            proof {
                assert(t@.subrange(i as int, i + n) != lit@) by {
                    assert(t@.subrange(i as int, i + n)[k as int] != lit@[k as int]);
                }
            }
            return None;
        }
        k = k + 1;
    }
    proof {
        assert(t@.subrange(i as int, i + n) =~= lit@);
    }
    Some(i + n)
}

/// Reads a string-literal body up to and including its closing quote.
fn read_string(t: &Vec<char>, i: usize) -> (r: Option<(Vec<char>, usize)>)
    ensures
        match r {
            Some((v, j)) => sp_string(t@, i as int) == Some((v@, j as int)),
            None => sp_string(t@, i as int) is None,
        },
    decreases t@.len() - i,
{
    if i >= t.len() {
        return None;
    }
    let c = t[i];
    if c == '"' {
        let v: Vec<char> = Vec::new();
        proof {
            assert(v@ =~= Seq::<char>::empty());
        }
        Some((v, i + 1))
    } else if c == '\\' {
        if i + 1 < t.len() {
            let e = t[i + 1];
            if e == '"' || e == '\\' {
                match read_string(t, i + 2) {
                    Some((mut v, j)) => {
                        v.insert(0, e);
                        proof {
                            assert(v@ =~= seq![t@[i + 1]] + v@.subrange(1, v@.len() as int));
                        }
                        Some((v, j))
                    },
                    None => None,
                }
            } else if e == 'u' && t.len() - i > 5 {
                if t[i + 2] == '0' && t[i + 3] == '0' {
                    match (hex_nibble(t[i + 4]), hex_nibble(t[i + 5])) {
                        (Some(d1), Some(d2)) => {
                            let code: u8 = d1 * 16 + d2;
                            let decoded = code as char;
                            proof {
                                assert(decoded == hex_pair_char(t@[i + 4], t@[i + 5]));
                            }
                            match read_string(t, i + 6) {
                                Some((mut v, j)) => {
                                    v.insert(0, decoded);
                                    proof {
                                        assert(v@ =~= seq![
                                            hex_pair_char(t@[i + 4], t@[i + 5]),
                                        ] + v@.subrange(1, v@.len() as int));
                                    }
                                    Some((v, j))
                                },
                                None => None,
                            }
                        },
                        _ => None,
                    }
                } else {
                    None
                }
            } else {
                None
            }
        } else {
            None
        }
    } else {
        match read_string(t, i + 1) {
            Some((mut v, j)) => {
                v.insert(0, c);
                proof {
                    assert(v@ =~= seq![t@[i as int]] + v@.subrange(1, v@.len() as int));
                }
                Some((v, j))
            },
            None => None,
        }
    }
}

/// There is a digit at `j`.
fn digit_at(t: &Vec<char>, j: usize) -> (r: bool)
    ensures
        r == (j < t@.len() && is_dec_digit(t@[j as int])),
{
    if j < t.len() {
        let cv = t[j] as u32;
        48 <= cv && cv <= 57
    } else {
        false
    }
}

/// Reads the number at `i`.
fn read_u8(t: &Vec<char>, i: usize) -> (r: Option<(u8, usize)>)
    ensures
        match r {
            Some((n, j)) => sp_u8(t@, i as int) == Some((n, j as int)),
            None => sp_u8(t@, i as int) is None,
        },
{
    if i > t.len() {
        return None;
    }
    proof {
        lemma_sp_digits_props(t@, i as int);
    }
    let ghost end = sp_digits(t@, i as int);
    let mut j: usize = i;
    let mut acc: u32 = 0;
    proof {
        assert(t@.subrange(i as int, i as int) =~= Seq::<char>::empty());
    }
    while digit_at(t, j)
        invariant
            i <= j <= t@.len(),
            t@.len() <= usize::MAX,
            j <= end,
            end == sp_digits(t@, i as int),
            sp_digits(t@, j as int) == end,
            all_dec_digits(t@.subrange(i as int, j as int)),
            acc as int == dec_value(t@.subrange(i as int, j as int)),
            acc <= 255,
        decreases t@.len() - j,
    {
        proof {
            lemma_sp_digits_props(t@, i as int);
        }
        let c = t[j];
        acc = acc * 10 + (c as u32 - 48);
        j = j + 1;
        proof {
            let sofar = t@.subrange(i as int, j - 1);
            let upto = t@.subrange(i as int, j as int);
            assert(upto.drop_last() =~= sofar);
            assert(upto.last() == t@[j - 1]);
            assert(all_dec_digits(upto));
            assert(acc as int == dec_value(upto));
        }
        if acc > 255 {
            proof {
                lemma_sp_digits_props(t@, i as int);
                let run = t@.subrange(i as int, end);
                assert(forall|k: int| 0 <= k < run.len() ==> is_dec_digit(#[trigger] run[k]));
                lemma_dec_value_prefix_le(run, j - i);
                assert(run.subrange(0, j - i) =~= t@.subrange(i as int, j as int));
            }
            return None;
        }
    }
    if j == i {
        return None;
    }
    proof {
        assert(sp_digits(t@, j as int) == j);
    }
    Some((acc as u8, j))
}

/// Reads the boolean literal at `i`.
fn read_bool(t: &Vec<char>, i: usize) -> (r: Option<(bool, usize)>)
    ensures
        match r {
            Some((b, j)) => sp_bool(t@, i as int) == Some((b, j as int)),
            None => sp_bool(t@, i as int) is None,
        },
{
    match read_lit(t, i, "true") {
        Some(j) => Some((true, j)),
        None => match read_lit(t, i, "false") {
            Some(j) => Some((false, j)),
            None => None,
        },
    }
}

/// Abstract value of one field of the document: a text, a number, or a
/// flag.
pub enum SpecField {
    S(Seq<char>),
    U(u8),
    B(bool),
}

/// One field of the document as the parser returns it.
pub enum ExecField {
    S(Vec<char>),
    U(u8),
    B(bool),
}

impl View for ExecField {
    type V = SpecField;

    open spec fn view(&self) -> SpecField {
        match self {
            ExecField::S(v) => SpecField::S(v@),
            ExecField::U(n) => SpecField::U(*n),
            ExecField::B(b) => SpecField::B(*b),
        }
    }
}

/// The views of a parsed field list.
pub open spec fn fields_view(s: Seq<ExecField>) -> Seq<SpecField> {
    Seq::new(s.len(), |k: int| s[k]@)
}

/// The views of a list of field names.
pub open spec fn views_of(ns: Seq<&str>) -> Seq<Seq<char>> {
    Seq::new(ns.len(), |k: int| ns[k]@)
}

/// The separator after a field: a bare newline after the last one, a
/// comma and newline otherwise.
pub open spec fn sep(last: bool) -> Seq<char> {
    if last {
        "\n"@
    } else {
        ",\n"@
    }
}

/// The text of one field value.
pub open spec fn ser_value(f: SpecField) -> Seq<char> {
    match f {
        SpecField::S(v) => seq!['"'] + escape(v) + seq!['"'],
        SpecField::U(n) => spec_dec_str(n as nat),
        SpecField::B(b) => spec_bool_str(b),
    }
}

/// The text of one field line: four spaces of indent, the quoted name,
/// a colon, the value, and the separator.
pub open spec fn ser_field(name: Seq<char>, f: SpecField, last: bool) -> Seq<char> {
    "    \""@ + name + "\": "@ + ser_value(f) + sep(last)
}

/// The field at `i`: its indent and quoted name, then a value read by
/// its first character — a quote opens a text, `t` or `f` a flag,
/// anything else is tried as a number — then the separator.
pub open spec fn sp_field(t: Seq<char>, i: int, name: Seq<char>, last: bool) -> Option<
    (SpecField, int),
> {
    match sp_lit(t, i, "    \""@) {
        Some(i1) => match sp_lit(t, i1, name) {
            Some(i2) => match sp_lit(t, i2, "\": "@) {
                Some(i3) => if i3 < t.len() && t[i3] == '"' {
                    match sp_string(t, i3 + 1) {
                        Some((v, i4)) => match sp_lit(t, i4, sep(last)) {
                            Some(i5) => Some((SpecField::S(v), i5)),
                            None => None,
                        },
                        None => None,
                    }
                } else if i3 < t.len() && (t[i3] == 't' || t[i3] == 'f') {
                    match sp_bool(t, i3) {
                        Some((b, i4)) => match sp_lit(t, i4, sep(last)) {
                            Some(i5) => Some((SpecField::B(b), i5)),
                            None => None,
                        },
                        None => None,
                    }
                } else {
                    match sp_u8(t, i3) {
                        Some((n, i4)) => match sp_lit(t, i4, sep(last)) {
                            Some(i5) => Some((SpecField::U(n), i5)),
                            None => None,
                        },
                        None => None,
                    }
                },
                None => None,
            },
            None => None,
        },
        None => None,
    }
}

/// Reads one field line.
fn read_field(t: &Vec<char>, i: usize, name: &str, last: bool) -> (r: Option<(ExecField, usize)>)
    ensures
        match r {
            Some((f, j)) => sp_field(t@, i as int, name@, last) == Some((f@, j as int)),
            None => sp_field(t@, i as int, name@, last) is None,
        },
{
    let i1 = match read_lit(t, i, "    \"") {
        Some(p) => p,
        None => {
            return None;
        },
    };
    let i2 = match read_lit(t, i1, name) {
        Some(p) => p,
        None => {
            return None;
        },
    };
    let i3 = match read_lit(t, i2, "\": ") {
        Some(p) => p,
        None => {
            return None;
        },
    };
    let sep_lit: &str = if last {
        "\n"
    } else {
        ",\n"
    };
    if i3 < t.len() && t[i3] == '"' {
        let (v, i4) = match read_string(t, i3 + 1) {
            Some(p) => p,
            None => {
                return None;
            },
        };
        let i5 = match read_lit(t, i4, sep_lit) {
            Some(p) => p,
            None => {
                return None;
            },
        };
        Some((ExecField::S(v), i5))
    } else if i3 < t.len() && (t[i3] == 't' || t[i3] == 'f') {
        let (b, i4) = match read_bool(t, i3) {
            Some(p) => p,
            None => {
                return None;
            },
        };
        let i5 = match read_lit(t, i4, sep_lit) {
            Some(p) => p,
            None => {
                return None;
            },
        };
        Some((ExecField::B(b), i5))
    } else {
        let (n, i4) = match read_u8(t, i3) {
            Some(p) => p,
            None => {
                return None;
            },
        };
        let i5 = match read_lit(t, i4, sep_lit) {
            Some(p) => p,
            None => {
                return None;
            },
        };
        Some((ExecField::U(n), i5))
    }
}

/// The text of the field lines from index `k` on; the final field
/// carries the closing separator.
pub open spec fn ser_fields(names: Seq<Seq<char>>, vals: Seq<SpecField>, k: int) -> Seq<char>
    decreases names.len() - k,
{
    if k < 0 || k >= names.len() {
        Seq::empty()
    } else {
        ser_field(names[k], vals[k], k == names.len() - 1) + ser_fields(names, vals, k + 1)
    }
}

/// The field lines from index `k` on, parsed in order.
pub open spec fn sp_fields(t: Seq<char>, i: int, names: Seq<Seq<char>>, k: int) -> Option<
    (Seq<SpecField>, int),
>
    decreases names.len() - k,
{
    if k < 0 || k >= names.len() {
        Some((Seq::empty(), i))
    } else {
        match sp_field(t, i, names[k], k == names.len() - 1) {
            Some((f, j)) => match sp_fields(t, j, names, k + 1) {
                Some((fs, j2)) => Some((seq![f] + fs, j2)),
                None => None,
            },
            None => None,
        }
    }
}

/// Reads a whole field list, in the order of `names`.
fn read_fields(t: &Vec<char>, i: usize, names: &Vec<&str>) -> (r: Option<(Vec<ExecField>, usize)>)
    ensures
        match r {
            Some((fs, j)) => sp_fields(t@, i as int, views_of(names@), 0) == Some(
                (fields_view(fs@), j as int),
            ),
            None => sp_fields(t@, i as int, views_of(names@), 0) is None,
        },
{
    let ghost sn = views_of(names@);
    let mut out: Vec<ExecField> = Vec::new();
    let mut pos: usize = i;
    let n = names.len();
    let mut k: usize = 0;
    while k < n
        invariant
            k <= n,
            n == names@.len(),
            sn == views_of(names@),
            out@.len() == k,
            (match sp_fields(t@, pos as int, sn, k as int) {
                Some((fs, j)) => sp_fields(t@, i as int, sn, 0) == Some(
                    (fields_view(out@) + fs, j),
                ),
                None => sp_fields(t@, i as int, sn, 0) is None,
            }),
        decreases n - k,
    {
        let last = k == n - 1;
        let ghost old_out = out@;
        let ghost old_pos = pos as int;
        match read_field(t, pos, names[k], last) {
            Some((f, j)) => {
                out.push(f);
                pos = j;
                proof {
                    assert(sn[k as int] == names@[k as int]@);
                    assert(fields_view(out@) =~= fields_view(old_out).push(f@));
                    assert forall|fs: Seq<SpecField>, j2: int|
                        sp_fields(t@, pos as int, sn, k + 1) == Some::<(Seq<SpecField>, int)>(
                            (fs, j2),
                        ) implies sp_fields(t@, old_pos, sn, k as int) == Some::<(
                        Seq<SpecField>,
                        int,
                    )>((seq![f@] + fs, j2)) by {}
                    if sp_fields(t@, pos as int, sn, k + 1) is Some {
                        let (fs, j2) = sp_fields(t@, pos as int, sn, k + 1).unwrap();
                        assert(fields_view(old_out) + (seq![f@] + fs) =~= fields_view(out@) + fs);
                    }
                }
            },
            None => {
                proof {
                    assert(sn[k as int] == names@[k as int]@);
                    assert(sp_fields(t@, old_pos, sn, k as int) is None);
                }
                return None;
            },
        }
        k = k + 1;
    }
    proof {
        assert(sp_fields(t@, pos as int, sn, n as int) == Some::<(Seq<SpecField>, int)>(
            (Seq::empty(), pos as int),
        ));
        assert(fields_view(out@) + Seq::<SpecField>::empty() =~= fields_view(out@));
    }
    Some((out, pos))
}

/// The text of one section: two spaces of indent, the quoted section
/// name, an opening brace, the field lines, and the closing brace with
/// its separator.
pub open spec fn ser_section(
    name: Seq<char>,
    names: Seq<Seq<char>>,
    vals: Seq<SpecField>,
    last: bool,
) -> Seq<char> {
    "  \""@ + name + "\": {\n"@ + ser_fields(names, vals, 0) + "  }"@ + sep(last)
}

/// The section called `name` at `i`, with the fields that `names`
/// prescribes.
pub open spec fn sp_section(
    t: Seq<char>,
    i: int,
    name: Seq<char>,
    names: Seq<Seq<char>>,
    last: bool,
) -> Option<(Seq<SpecField>, int)> {
    match sp_lit(t, i, "  \""@) {
        Some(i1) => match sp_lit(t, i1, name) {
            Some(i2) => match sp_lit(t, i2, "\": {\n"@) {
                Some(i3) => match sp_fields(t, i3, names, 0) {
                    Some((fs, i4)) => match sp_lit(t, i4, "  }"@) {
                        Some(i5) => match sp_lit(t, i5, sep(last)) {
                            Some(i6) => Some((fs, i6)),
                            None => None,
                        },
                        None => None,
                    },
                    None => None,
                },
                None => None,
            },
            None => None,
        },
        None => None,
    }
}

/// Reads one section.
fn read_section(t: &Vec<char>, i: usize, name: &str, names: &Vec<&str>, last: bool) -> (r: Option<
    (Vec<ExecField>, usize),
>)
    ensures
        match r {
            Some((fs, j)) => sp_section(t@, i as int, name@, views_of(names@), last) == Some(
                (fields_view(fs@), j as int),
            ),
            None => sp_section(t@, i as int, name@, views_of(names@), last) is None,
        },
{
    let i1 = match read_lit(t, i, "  \"") {
        Some(p) => p,
        None => {
            return None;
        },
    };
    let i2 = match read_lit(t, i1, name) {
        Some(p) => p,
        None => {
            return None;
        },
    };
    let i3 = match read_lit(t, i2, "\": {\n") {
        Some(p) => p,
        None => {
            return None;
        },
    };
    let (fs, i4) = match read_fields(t, i3, names) {
        Some(p) => p,
        None => {
            return None;
        },
    };
    let i5 = match read_lit(t, i4, "  }") {
        Some(p) => p,
        None => {
            return None;
        },
    };
    let sep_lit: &str = if last {
        "\n"
    } else {
        ",\n"
    };
    let i6 = match read_lit(t, i5, sep_lit) {
        Some(p) => p,
        None => {
            return None;
        },
    };
    Some((fs, i6))
}

/// A window of `t` equal to a concatenation splits into windows of the
/// two parts.
proof fn lemma_window_split(t: Seq<char>, i: int, a: Seq<char>, b: Seq<char>)
    requires
        0 <= i,
        i + a.len() + b.len() <= t.len(),
        t.subrange(i, i + a.len() + b.len()) == a + b,
    ensures
        t.subrange(i, i + a.len()) == a,
        t.subrange(i + a.len(), i + a.len() + b.len()) == b,
{
    assert forall|k: int| 0 <= k < a.len() implies t.subrange(i, i + a.len())[k] == a[k] by {
        assert(t.subrange(i, i + a.len() + b.len())[k] == (a + b)[k]);
    }
    assert(t.subrange(i, i + a.len()) =~= a);
    assert forall|k: int| 0 <= k < b.len() implies t.subrange(
        i + a.len(),
        i + a.len() + b.len(),
    )[k] == b[k] by {
        assert(t.subrange(i + a.len(), i + a.len() + b.len())[k] == t[i + a.len() + k]);
        assert(t.subrange(i, i + a.len() + b.len())[a.len() + k] == t[i + a.len() + k]);
        assert(t.subrange(i, i + a.len() + b.len())[a.len() + k] == (a + b)[a.len() + k]);
    }
    assert(t.subrange(i + a.len(), i + a.len() + b.len()) =~= b);
}

/// The hexadecimal digit characters are hexadecimal digits with their
/// own values.
proof fn lemma_hex_char_props(d: int)
    requires
        0 <= d < 16,
    ensures
        is_hex_lower(spec_hex_char(d)),
        hex_val(spec_hex_char(d)) == d,
{
}

/// Reading a string literal gives back exactly the text that was
/// escaped into it, and stops right after the closing quote.
proof fn lemma_sp_string_round(t: Seq<char>, i: int, v: Seq<char>)
    requires
        0 <= i,
        i + escape(v).len() + 1 <= t.len(),
        t.subrange(i, i + escape(v).len() + 1) == escape(v) + seq!['"'],
    ensures
        sp_string(t, i) == Some((v, i + escape(v).len() + 1)),
    decreases v.len(),
{
    let w = t.subrange(i, i + escape(v).len() + 1);
    if v.len() == 0 {
        assert(t[i] == w[0]);
        assert(w[0] == '"');
    } else {
        let c = v[0];
        let rest = v.drop_first();
        assert(escape(v) == esc_char(c) + escape(rest));
        let shift = esc_char(c).len();
        assert forall|k: int| 0 <= k < escape(rest).len() + 1 implies t.subrange(
            i + shift,
            i + shift + escape(rest).len() + 1,
        )[k] == (escape(rest) + seq!['"'])[k] by {
            assert(w[shift + k] == (escape(v) + seq!['"'])[shift + k]);
            assert((escape(v) + seq!['"'])[shift + k] == (esc_char(c) + (escape(rest) + seq!['"']))[
                shift + k
            ]);
        }
        assert(t.subrange(i + shift, i + shift + escape(rest).len() + 1) =~= escape(rest)
            + seq!['"']);
        lemma_sp_string_round(t, i + shift, rest);
        if c == '"' || c == '\\' {
            assert(t[i] == w[0]);
            assert(w[0] == '\\');
            assert(t[i + 1] == w[1]);
            assert(w[1] == c);
            assert(sp_string(t, i) == Some((seq![c] + rest, i + escape(v).len() + 1)));
        } else if (c as u32) < 32 {
            let cu = (c as u32) as int;
            assert(cu < 32);
            assert(t[i] == w[0]);
            assert(w[0] == '\\');
            assert(t[i + 1] == w[1]);
            assert(w[1] == 'u');
            assert(t[i + 2] == w[2]);
            assert(w[2] == '0');
            assert(t[i + 3] == w[3]);
            assert(w[3] == '0');
            assert(t[i + 4] == w[4]);
            assert(w[4] == spec_hex_char(cu / 16));
            assert(t[i + 5] == w[5]);
            assert(w[5] == spec_hex_char(cu % 16));
            lemma_hex_char_props(cu / 16);
            lemma_hex_char_props(cu % 16);
            lemma_fundamental_div_mod(cu, 16);
            vstd::utf8::char_u32_cast(c, c as u32);
            assert(hex_pair_char(t[i + 4], t[i + 5]) == c);
            assert(sp_string(t, i) == Some((seq![c] + rest, i + escape(v).len() + 1)));
        } else {
            assert(t[i] == w[0]);
            assert(w[0] == c);
            assert(sp_string(t, i) == Some((seq![c] + rest, i + escape(v).len() + 1)));
        }
        assert(seq![c] + rest =~= v);
    }
}

/// The decimal rendering of a number is all digits.
proof fn lemma_dec_str_digits(n: nat)
    ensures
        spec_dec_str(n).len() >= 1,
        forall|k: int| 0 <= k < spec_dec_str(n).len() ==> is_dec_digit(#[trigger] spec_dec_str(n)[k]),
    decreases n,
{
    if n >= 10 {
        lemma_dec_str_digits(n / 10);
    }
}

/// Reading back the decimal rendering of a number gives the number.
proof fn lemma_dec_value_of_dec_str(n: nat)
    ensures
        dec_value(spec_dec_str(n)) == n,
    decreases n,
{
    if n < 10 {
        assert(spec_dec_str(n).drop_last() =~= Seq::<char>::empty());
        assert(dec_value(Seq::<char>::empty()) == 0);
        assert(spec_dec_str(n).last() == spec_digit_char(n as int));
    } else {
        lemma_dec_value_of_dec_str(n / 10);
        assert(spec_dec_str(n).drop_last() =~= spec_dec_str(n / 10));
        assert(spec_dec_str(n).last() == spec_digit_char((n % 10) as int));
    }
}

/// The digit run starting at `i` ends exactly at the first position that
/// is out of text or holds a non-digit.
proof fn lemma_sp_digits_exact(t: Seq<char>, i: int, m: int)
    requires
        0 <= i <= m <= t.len(),
        forall|k: int| i <= k < m ==> is_dec_digit(#[trigger] t[k]),
        m == t.len() || !is_dec_digit(t[m]),
    ensures
        sp_digits(t, i) == m,
    decreases m - i,
{
    if i < m {
        lemma_sp_digits_exact(t, i + 1, m);
    }
}

/// Reading a field line written by the serializer gives back its value
/// and stops right after it.
proof fn lemma_field_round(t: Seq<char>, i: int, name: Seq<char>, f: SpecField, last: bool)
    requires
        0 <= i,
        i + ser_field(name, f, last).len() <= t.len(),
        t.subrange(i, i + ser_field(name, f, last).len()) == ser_field(name, f, last),
    ensures
        sp_field(t, i, name, last) == Some((f, i + ser_field(name, f, last).len())),
{
    let p1 = "    \""@;
    let p2 = name;
    let p3 = "\": "@;
    let p4 = ser_value(f);
    let p5 = sep(last);
    let l1 = p1.len();
    let l2 = l1 + p2.len();
    let l3 = l2 + p3.len();
    let l4 = l3 + p4.len();
    let l5 = l4 + p5.len();
    lemma_window_split(t, i, p1 + p2 + p3 + p4, p5);
    lemma_window_split(t, i, p1 + p2 + p3, p4);
    lemma_window_split(t, i, p1 + p2, p3);
    lemma_window_split(t, i, p1, p2);
    assert(sp_lit(t, i, p1) == Some(i + l1));
    assert(sp_lit(t, i + l1, p2) == Some(i + l2));
    assert(sp_lit(t, i + l2, p3) == Some(i + l3));
    assert(sp_lit(t, i + l4, p5) == Some(i + l5));
    let i3 = i + l3;
    reveal_strlit("true");
    reveal_strlit("false");
    reveal_strlit(",\n");
    reveal_strlit("\n");
    match f {
        SpecField::S(v) => {
            assert(p4 == seq!['"'] + escape(v) + seq!['"']);
            assert(t[i3] == t.subrange(i + l3, i + l4)[0]);
            assert(t[i3] == '"');
            assert forall|k: int| 0 <= k < escape(v).len() + 1 implies t.subrange(
                i3 + 1,
                i3 + 1 + escape(v).len() + 1,
            )[k] == (escape(v) + seq!['"'])[k] by {
                assert(t.subrange(i + l3, i + l4)[1 + k] == p4[1 + k]);
                assert(p4[1 + k] == (seq!['"'] + (escape(v) + seq!['"']))[1 + k]);
            }
            assert(t.subrange(i3 + 1, i3 + 1 + escape(v).len() + 1) =~= escape(v) + seq!['"']);
            lemma_sp_string_round(t, i3 + 1, v);
            assert(sp_field(t, i, name, last) == Some((f, i + l5)));
        },
        SpecField::B(b) => {
            assert(p4 == spec_bool_str(b));
            assert(t[i3] == t.subrange(i + l3, i + l4)[0]);
            if b {
                assert(t[i3] == 't');
                assert(sp_lit(t, i3, "true"@) == Some(i3 + 4));
            } else {
                assert(t[i3] == 'f');
                assert(t.subrange(i3, i + l4) == "false"@);
                assert(sp_lit(t, i3, "true"@) is None) by {
                    if i3 + 4 <= t.len() && t.subrange(i3, i3 + 4) == "true"@ {
                        assert(t.subrange(i3, i3 + 4)[0] == t[i3]);
                        assert(t.subrange(i3, i3 + 4)[0] == 't');
                    }
                }
                assert(sp_lit(t, i3, "false"@) == Some(i3 + 5));
            }
            assert(sp_bool(t, i3) == Some((b, i + l4)));
            assert(sp_field(t, i, name, last) == Some((f, i + l5)));
        },
        SpecField::U(n) => {
            assert(p4 == spec_dec_str(n as nat));
            lemma_dec_str_digits(n as nat);
            assert forall|k: int| i3 <= k < i + l4 implies is_dec_digit(#[trigger] t[k]) by {
                assert(t[k] == t.subrange(i + l3, i + l4)[k - i3]);
                assert(is_dec_digit(p4[k - i3]));
            }
            assert(t[i3] == t.subrange(i + l3, i + l4)[0]);
            assert(is_dec_digit(t[i3]));
            assert(t[i3] != '"' && t[i3] != 't' && t[i3] != 'f');
            assert(t[i + l4] == t.subrange(i + l4, i + l5)[0]);
            assert(!is_dec_digit(t[i + l4]));
            lemma_sp_digits_exact(t, i3, i + l4);
            assert(t.subrange(i3, i + l4) == p4);
            lemma_dec_value_of_dec_str(n as nat);
            assert(sp_u8(t, i3) == Some((n, i + l4)));
            assert(sp_field(t, i, name, last) == Some((f, i + l5)));
        },
    }
}

/// Reading back a serialized field list gives the values that were
/// written, in order.
proof fn lemma_fields_round(
    t: Seq<char>,
    i: int,
    names: Seq<Seq<char>>,
    vals: Seq<SpecField>,
    k: int,
)
    requires
        names.len() == vals.len(),
        0 <= k <= names.len(),
        0 <= i,
        i + ser_fields(names, vals, k).len() <= t.len(),
        t.subrange(i, i + ser_fields(names, vals, k).len()) == ser_fields(names, vals, k),
    ensures
        sp_fields(t, i, names, k) == Some((vals.skip(k), i + ser_fields(names, vals, k).len())),
    decreases names.len() - k,
{
    if k >= names.len() {
        assert(vals.skip(k) =~= Seq::<SpecField>::empty());
        assert(t.subrange(i, i) =~= Seq::<char>::empty());
    } else {
        let last = k == names.len() - 1;
        let a = ser_field(names[k], vals[k], last);
        let b = ser_fields(names, vals, k + 1);
        lemma_window_split(t, i, a, b);
        lemma_field_round(t, i, names[k], vals[k], last);
        lemma_fields_round(t, i + a.len(), names, vals, k + 1);
        assert(seq![vals[k]] + vals.skip(k + 1) =~= vals.skip(k));
    }
}

/// Reading back a serialized section gives the field values that were
/// written.
proof fn lemma_section_round(
    t: Seq<char>,
    i: int,
    name: Seq<char>,
    names: Seq<Seq<char>>,
    vals: Seq<SpecField>,
    last: bool,
)
    requires
        names.len() == vals.len(),
        0 <= i,
        i + ser_section(name, names, vals, last).len() <= t.len(),
        t.subrange(i, i + ser_section(name, names, vals, last).len()) == ser_section(
            name,
            names,
            vals,
            last,
        ),
    ensures
        sp_section(t, i, name, names, last) == Some(
            (vals, i + ser_section(name, names, vals, last).len()),
        ),
{
    let p1 = "  \""@;
    let p2 = name;
    let p3 = "\": {\n"@;
    let p4 = ser_fields(names, vals, 0);
    let p5 = "  }"@;
    let p6 = sep(last);
    let l1 = p1.len();
    let l2 = l1 + p2.len();
    let l3 = l2 + p3.len();
    let l4 = l3 + p4.len();
    let l5 = l4 + p5.len();
    let l6 = l5 + p6.len();
    lemma_window_split(t, i, p1 + p2 + p3 + p4 + p5, p6);
    lemma_window_split(t, i, p1 + p2 + p3 + p4, p5);
    lemma_window_split(t, i, p1 + p2 + p3, p4);
    lemma_window_split(t, i, p1 + p2, p3);
    lemma_window_split(t, i, p1, p2);
    assert(sp_lit(t, i, p1) == Some(i + l1));
    assert(sp_lit(t, i + l1, p2) == Some(i + l2));
    assert(sp_lit(t, i + l2, p3) == Some(i + l3));
    lemma_fields_round(t, i + l3, names, vals, 0);
    assert(vals.skip(0) =~= vals);
    assert(sp_lit(t, i + l4, p5) == Some(i + l5));
    assert(sp_lit(t, i + l5, p6) == Some(i + l6));
}

/// Field names of the identity section, in record order.
#[verifier::opaque]
pub open spec fn info_names() -> Seq<Seq<char>> {
    seq![
        "character_name"@,
        "class"@,
        "level"@,
        "background"@,
        "player_name"@,
        "race"@,
        "alignment"@,
        "experience"@,
    ]
}

/// Field names of the statistics section.
#[verifier::opaque]
pub open spec fn stats_names() -> Seq<Seq<char>> {
    seq![
        "strength"@,
        "dexterity"@,
        "constitution"@,
        "intelligence"@,
        "wisdom"@,
        "charisma"@,
        "inspiration"@,
        "proficiency_bonus"@,
        "passive_wisdom_perception"@,
    ]
}

/// Field names of the saving-throw section.
#[verifier::opaque]
pub open spec fn saves_names() -> Seq<Seq<char>> {
    seq![
        "strength_proficent"@,
        "dexterity_proficent"@,
        "constitution_proficent"@,
        "intelligence_proficent"@,
        "wisdom_proficent"@,
        "charisma_proficent"@,
    ]
}

/// Field names of the skills section: the eighteen score fields,
/// then the eighteen proficiency-marker fields.
#[verifier::opaque]
pub open spec fn skills_names() -> Seq<Seq<char>> {
    seq![
        "acrobatics"@,
        "animal_handling"@,
        "arcana"@,
        "athletics"@,
        "deception"@,
        "history"@,
        "insight"@,
        "intimidation"@,
        "investigation"@,
        "medicine"@,
        "nature"@,
        "perception"@,
        "performance"@,
        "persuasion"@,
        "religion"@,
        "slight_of_hand"@,
        "stealth"@,
        "survival"@,
        "acrobatics_skill"@,
        "animal_handling_skill"@,
        "arcana_skill"@,
        "athletics_skill"@,
        "deception_skill"@,
        "history_skill"@,
        "insight_skill"@,
        "intimidation_skill"@,
        "investigation_skill"@,
        "medicine_skill"@,
        "nature_skill"@,
        "perception_skill"@,
        "performance_skill"@,
        "persuasion_skill"@,
        "religion_skill"@,
        "slight_of_hand_skill"@,
        "stealth_skill"@,
        "survival_skill"@,
    ]
}

/// Field names of the proficiencies-and-languages section.
#[verifier::opaque]
pub open spec fn prof_names() -> Seq<Seq<char>> {
    seq![
        "languages_known"@,
        "armor_proficiency"@,
        "weapon_proficiency"@,
        "tools_proficiency"@,
    ]
}

/// Field names of the health section.
#[verifier::opaque]
pub open spec fn health_names() -> Seq<Seq<char>> {
    seq![
        "armor_class"@,
        "initiative"@,
        "speed"@,
        "current_hp"@,
        "maximum_hp"@,
        "temporary_hp"@,
        "hit_dice_type"@,
        "total_hit_dice"@,
        "current_hit_dice"@,
        "unconcicious"@,
        "death_save_saves"@,
        "death_save_failes"@,
    ]
}

/// Field values of the identity section.
#[verifier::opaque]
pub open spec fn info_vals(v: InformationV) -> Seq<SpecField> {
    seq![
        SpecField::S(v.character_name),
        SpecField::S(v.class),
        SpecField::U(v.level),
        SpecField::S(v.background),
        SpecField::S(v.player_name),
        SpecField::S(v.race),
        SpecField::S(v.alignment),
        SpecField::S(v.experience),
    ]
}

/// Field values of the statistics section.
#[verifier::opaque]
pub open spec fn stats_vals(v: Statistics) -> Seq<SpecField> {
    seq![
        SpecField::U(v.strength),
        SpecField::U(v.dexterity),
        SpecField::U(v.constitution),
        SpecField::U(v.intelligence),
        SpecField::U(v.wisdom),
        SpecField::U(v.charisma),
        SpecField::B(v.inspiration),
        SpecField::U(v.proficiency_bonus),
        SpecField::U(v.passive_wisdom_perception),
    ]
}

/// Field values of the saving-throw section.
#[verifier::opaque]
pub open spec fn saves_vals(v: SavingThrows) -> Seq<SpecField> {
    seq![
        SpecField::B(v.strength_proficent),
        SpecField::B(v.dexterity_proficent),
        SpecField::B(v.constitution_proficent),
        SpecField::B(v.intelligence_proficent),
        SpecField::B(v.wisdom_proficent),
        SpecField::B(v.charisma_proficent),
    ]
}

/// Field values of the skills section.
#[verifier::opaque]
pub open spec fn skills_vals(v: SkillsV) -> Seq<SpecField> {
    seq![
        SpecField::S(v.scores[0]),
        SpecField::S(v.scores[1]),
        SpecField::S(v.scores[2]),
        SpecField::S(v.scores[3]),
        SpecField::S(v.scores[4]),
        SpecField::S(v.scores[5]),
        SpecField::S(v.scores[6]),
        SpecField::S(v.scores[7]),
        SpecField::S(v.scores[8]),
        SpecField::S(v.scores[9]),
        SpecField::S(v.scores[10]),
        SpecField::S(v.scores[11]),
        SpecField::S(v.scores[12]),
        SpecField::S(v.scores[13]),
        SpecField::S(v.scores[14]),
        SpecField::S(v.scores[15]),
        SpecField::S(v.scores[16]),
        SpecField::S(v.scores[17]),
        SpecField::S(v.markers[0]),
        SpecField::S(v.markers[1]),
        SpecField::S(v.markers[2]),
        SpecField::S(v.markers[3]),
        SpecField::S(v.markers[4]),
        SpecField::S(v.markers[5]),
        SpecField::S(v.markers[6]),
        SpecField::S(v.markers[7]),
        SpecField::S(v.markers[8]),
        SpecField::S(v.markers[9]),
        SpecField::S(v.markers[10]),
        SpecField::S(v.markers[11]),
        SpecField::S(v.markers[12]),
        SpecField::S(v.markers[13]),
        SpecField::S(v.markers[14]),
        SpecField::S(v.markers[15]),
        SpecField::S(v.markers[16]),
        SpecField::S(v.markers[17]),
    ]
}

/// Field values of the proficiencies-and-languages section.
#[verifier::opaque]
pub open spec fn prof_vals(v: ProficienciesAndLanguageV) -> Seq<SpecField> {
    seq![
        SpecField::S(v.languages_known),
        SpecField::S(v.armor_proficiency),
        SpecField::S(v.weapon_proficiency),
        SpecField::S(v.tools_proficiency),
    ]
}

/// Field values of the health section.
#[verifier::opaque]
pub open spec fn health_vals(v: HealthV) -> Seq<SpecField> {
    seq![
        SpecField::U(v.armor_class),
        SpecField::S(v.initiative),
        SpecField::U(v.speed),
        SpecField::U(v.current_hp),
        SpecField::U(v.maximum_hp),
        SpecField::U(v.temporary_hp),
        SpecField::S(v.hit_dice_type),
        SpecField::U(v.total_hit_dice),
        SpecField::U(v.current_hit_dice),
        SpecField::B(v.unconcicious),
        SpecField::S(v.death_save_saves),
        SpecField::S(v.death_save_failes),
    ]
}

/// The text of a text field; the empty sequence elsewhere.
pub open spec fn as_s(f: SpecField) -> Seq<char> {
    match f {
        SpecField::S(v) => v,
        _ => Seq::empty(),
    }
}

/// The number of a numeric field; zero elsewhere.
pub open spec fn as_u(f: SpecField) -> u8 {
    match f {
        SpecField::U(n) => n,
        _ => 0,
    }
}

/// The flag of a boolean field; false elsewhere.
pub open spec fn as_b(f: SpecField) -> bool {
    match f {
        SpecField::B(b) => b,
        _ => false,
    }
}

/// The parsed identity fields have the kinds the record asks for.
pub open spec fn info_ok(fs: Seq<SpecField>) -> bool {
    &&& fs.len() == 8
    &&& fs[0] is S
    &&& fs[1] is S
    &&& fs[2] is U
    &&& fs[3] is S
    &&& fs[4] is S
    &&& fs[5] is S
    &&& fs[6] is S
    &&& fs[7] is S
}

/// The parsed statistics fields have the kinds the record asks for.
pub open spec fn stats_ok(fs: Seq<SpecField>) -> bool {
    &&& fs.len() == 9
    &&& fs[0] is U
    &&& fs[1] is U
    &&& fs[2] is U
    &&& fs[3] is U
    &&& fs[4] is U
    &&& fs[5] is U
    &&& fs[6] is B
    &&& fs[7] is U
    &&& fs[8] is U
}

/// The parsed saving-throw fields have the kinds the record asks for.
pub open spec fn saves_ok(fs: Seq<SpecField>) -> bool {
    &&& fs.len() == 6
    &&& fs[0] is B
    &&& fs[1] is B
    &&& fs[2] is B
    &&& fs[3] is B
    &&& fs[4] is B
    &&& fs[5] is B
}

/// The parsed skills fields have the kinds the record asks for.
pub open spec fn skills_ok(fs: Seq<SpecField>) -> bool {
    &&& fs.len() == 36
    &&& fs[0] is S
    &&& fs[1] is S
    &&& fs[2] is S
    &&& fs[3] is S
    &&& fs[4] is S
    &&& fs[5] is S
    &&& fs[6] is S
    &&& fs[7] is S
    &&& fs[8] is S
    &&& fs[9] is S
    &&& fs[10] is S
    &&& fs[11] is S
    &&& fs[12] is S
    &&& fs[13] is S
    &&& fs[14] is S
    &&& fs[15] is S
    &&& fs[16] is S
    &&& fs[17] is S
    &&& fs[18] is S
    &&& fs[19] is S
    &&& fs[20] is S
    &&& fs[21] is S
    &&& fs[22] is S
    &&& fs[23] is S
    &&& fs[24] is S
    &&& fs[25] is S
    &&& fs[26] is S
    &&& fs[27] is S
    &&& fs[28] is S
    &&& fs[29] is S
    &&& fs[30] is S
    &&& fs[31] is S
    &&& fs[32] is S
    &&& fs[33] is S
    &&& fs[34] is S
    &&& fs[35] is S
}

/// The parsed proficiency fields have the kinds the record asks for.
pub open spec fn prof_ok(fs: Seq<SpecField>) -> bool {
    &&& fs.len() == 4
    &&& fs[0] is S
    &&& fs[1] is S
    &&& fs[2] is S
    &&& fs[3] is S
}

/// The parsed health fields have the kinds the record asks for.
pub open spec fn health_ok(fs: Seq<SpecField>) -> bool {
    &&& fs.len() == 12
    &&& fs[0] is U
    &&& fs[1] is S
    &&& fs[2] is U
    &&& fs[3] is U
    &&& fs[4] is U
    &&& fs[5] is U
    &&& fs[6] is S
    &&& fs[7] is U
    &&& fs[8] is U
    &&& fs[9] is B
    &&& fs[10] is S
    &&& fs[11] is S
}

/// The identity record a parsed field list denotes.
pub open spec fn info_of(fs: Seq<SpecField>) -> InformationV {
    InformationV {
        character_name: as_s(fs[0]),
        class: as_s(fs[1]),
        level: as_u(fs[2]),
        background: as_s(fs[3]),
        player_name: as_s(fs[4]),
        race: as_s(fs[5]),
        alignment: as_s(fs[6]),
        experience: as_s(fs[7]),
    }
}

/// The statistics record a parsed field list denotes.
pub open spec fn stats_of(fs: Seq<SpecField>) -> Statistics {
    Statistics {
        strength: as_u(fs[0]),
        dexterity: as_u(fs[1]),
        constitution: as_u(fs[2]),
        intelligence: as_u(fs[3]),
        wisdom: as_u(fs[4]),
        charisma: as_u(fs[5]),
        inspiration: as_b(fs[6]),
        proficiency_bonus: as_u(fs[7]),
        passive_wisdom_perception: as_u(fs[8]),
    }
}

/// The saving-throw record a parsed field list denotes.
pub open spec fn saves_of(fs: Seq<SpecField>) -> SavingThrows {
    SavingThrows {
        strength_proficent: as_b(fs[0]),
        dexterity_proficent: as_b(fs[1]),
        constitution_proficent: as_b(fs[2]),
        intelligence_proficent: as_b(fs[3]),
        wisdom_proficent: as_b(fs[4]),
        charisma_proficent: as_b(fs[5]),
    }
}

/// The skills record a parsed field list denotes.
pub open spec fn skills_of(fs: Seq<SpecField>) -> SkillsV {
    SkillsV {
        scores: seq![as_s(fs[0]), as_s(fs[1]), as_s(fs[2]), as_s(fs[3]), as_s(fs[4]), as_s(fs[5]), as_s(fs[6]), as_s(fs[7]), as_s(fs[8]), as_s(fs[9]), as_s(fs[10]), as_s(fs[11]), as_s(fs[12]), as_s(fs[13]), as_s(fs[14]), as_s(fs[15]), as_s(fs[16]), as_s(fs[17])],
        markers: seq![as_s(fs[18]), as_s(fs[19]), as_s(fs[20]), as_s(fs[21]), as_s(fs[22]), as_s(fs[23]), as_s(fs[24]), as_s(fs[25]), as_s(fs[26]), as_s(fs[27]), as_s(fs[28]), as_s(fs[29]), as_s(fs[30]), as_s(fs[31]), as_s(fs[32]), as_s(fs[33]), as_s(fs[34]), as_s(fs[35])],
    }
}

/// The proficiencies record a parsed field list denotes.
pub open spec fn prof_of(fs: Seq<SpecField>) -> ProficienciesAndLanguageV {
    ProficienciesAndLanguageV {
        languages_known: as_s(fs[0]),
        armor_proficiency: as_s(fs[1]),
        weapon_proficiency: as_s(fs[2]),
        tools_proficiency: as_s(fs[3]),
    }
}

/// The health record a parsed field list denotes.
pub open spec fn health_of(fs: Seq<SpecField>) -> HealthV {
    HealthV {
        armor_class: as_u(fs[0]),
        initiative: as_s(fs[1]),
        speed: as_u(fs[2]),
        current_hp: as_u(fs[3]),
        maximum_hp: as_u(fs[4]),
        temporary_hp: as_u(fs[5]),
        hit_dice_type: as_s(fs[6]),
        total_hit_dice: as_u(fs[7]),
        current_hit_dice: as_u(fs[8]),
        unconcicious: as_b(fs[9]),
        death_save_saves: as_s(fs[10]),
        death_save_failes: as_s(fs[11]),
    }
}


/// The text of the whole document: an outer object holding the six
/// sections, the health section last.
pub open spec fn ser_sheet(m: CharSheetV) -> Seq<char> {
    "{\n"@ + ser_section("information"@, info_names(), info_vals(m.information), false)
        + ser_section("statistics"@, stats_names(), stats_vals(m.statistics), false)
        + ser_section("saving_throws"@, saves_names(), saves_vals(m.saving_throws), false)
        + ser_section("skills"@, skills_names(), skills_vals(m.skills), false)
        + ser_section(
        "proficiencies_and_language"@,
        prof_names(),
        prof_vals(m.proficiencies_and_language),
        false,
    ) + ser_section("health"@, health_names(), health_vals(m.health), true) + "}"@
}

/// Position of a parse step that carries a value.
pub open spec fn sp_pos<T>(o: Option<(T, int)>) -> Option<int> {
    match o {
        Some((_, j)) => Some(j),
        None => None,
    }
}

/// A literal step chained after an earlier step.
pub open spec fn sp_lit_o(t: Seq<char>, prev: Option<int>, lit: Seq<char>) -> Option<int> {
    match prev {
        Some(i) => sp_lit(t, i, lit),
        None => None,
    }
}

/// A section step chained after an earlier step.
pub open spec fn sp_section_o(
    t: Seq<char>,
    prev: Option<int>,
    name: Seq<char>,
    names: Seq<Seq<char>>,
    last: bool,
) -> Option<(Seq<SpecField>, int)> {
    match prev {
        Some(i) => sp_section(t, i, name, names, last),
        None => None,
    }
}

/// The whole document at `t`: the six sections in order, each field of
/// the kind its record asks for, and nothing after the closing brace.
pub open spec fn sp_sheet(t: Seq<char>) -> Option<CharSheetV> {
    let p0 = sp_lit(t, 0, "{\n"@);
    let s1 = sp_section_o(t, p0, "information"@, info_names(), false);
    let s2 = sp_section_o(t, sp_pos(s1), "statistics"@, stats_names(), false);
    let s3 = sp_section_o(t, sp_pos(s2), "saving_throws"@, saves_names(), false);
    let s4 = sp_section_o(t, sp_pos(s3), "skills"@, skills_names(), false);
    let s5 = sp_section_o(t, sp_pos(s4), "proficiencies_and_language"@, prof_names(), false);
    let s6 = sp_section_o(t, sp_pos(s5), "health"@, health_names(), true);
    let p7 = sp_lit_o(t, sp_pos(s6), "}"@);
    if p7 == Some(t.len() as int) && info_ok(s1.unwrap().0) && stats_ok(s2.unwrap().0) && saves_ok(
        s3.unwrap().0,
    ) && skills_ok(s4.unwrap().0) && prof_ok(s5.unwrap().0) && health_ok(s6.unwrap().0) {
        Some(
            CharSheetV {
                information: info_of(s1.unwrap().0),
                statistics: stats_of(s2.unwrap().0),
                saving_throws: saves_of(s3.unwrap().0),
                skills: skills_of(s4.unwrap().0),
                proficiencies_and_language: prof_of(s5.unwrap().0),
                health: health_of(s6.unwrap().0),
            },
        )
    } else {
        None
    }
}


/// The characters of a text, as a vector.
fn str_chars(s: &str) -> (r: Vec<char>)
    ensures
        r@ == s@,
{
    let n = s.unicode_len();
    let mut r: Vec<char> = Vec::new();
    let mut k: usize = 0;
    while k < n
        invariant
            n == s@.len(),
            k <= n,
            r@ == s@.subrange(0, k as int),
        decreases n - k,
    {
        r.push(s.get_char(k));
        k = k + 1;
        proof {
            assert(r@ =~= s@.subrange(0, k as int));
        }
    }
    proof {
        assert(s@.subrange(0, n as int) =~= s@);
    }
    r
}

/// Relies on `String`'s `FromIterator<char>`: collecting characters
/// builds the string made of exactly those characters, in order.
#[verifier::external_body]
fn chars_to_string(v: &Vec<char>) -> (r: String)
    ensures
        r@ == v@,
{
    v.iter().collect()
}

/// The lowercase hexadecimal digit with value `d`.
fn hex_char(d: u8) -> (r: char)
    requires
        d < 16,
    ensures
        r == spec_hex_char(d as int),
{
    match d {
        0 => '0',
        1 => '1',
        2 => '2',
        3 => '3',
        4 => '4',
        5 => '5',
        6 => '6',
        7 => '7',
        8 => '8',
        9 => '9',
        10 => 'a',
        11 => 'b',
        12 => 'c',
        13 => 'd',
        14 => 'e',
        _ => 'f',
    }
}

/// Value of a hexadecimal digit character, when it is one.
fn hex_nibble(c: char) -> (r: Option<u8>)
    ensures
        match r {
            Some(d) => is_hex_lower(c) && d < 16 && d as int == hex_val(c),
            None => !is_hex_lower(c),
        },
{
    let cv = c as u32;
    if 48 <= cv && cv <= 57 {
        Some((cv - 48) as u8)
    } else if 97 <= cv && cv <= 102 {
        Some((cv - 87) as u8)
    } else {
        None
    }
}

/// Appends a text value in its escaped form, from a character vector.
fn push_escaped_chars(out: &mut Vec<char>, v: &Vec<char>)
    ensures
        final(out)@ == old(out)@ + escape(v@),
{
    let n = v.len();
    let mut k: usize = 0;
    proof {
        assert(v@.subrange(0, 0) =~= Seq::<char>::empty());
    }
    while k < n
        invariant
            n == v@.len(),
            k <= n,
            out@ == old(out)@ + escape(v@.subrange(0, k as int)),
        decreases n - k,
    {
        let ghost out0 = out@;
        let c = v[k];
        let cv = c as u32;
        if c == '"' || c == '\\' {
            out.push('\\');
            out.push(c);
        } else if cv < 32 {
            out.push('\\');
            out.push('u');
            out.push('0');
            out.push('0');
            out.push(hex_char((cv / 16) as u8));
            out.push(hex_char((cv % 16) as u8));
            proof {
                assert(out@ =~= out0 + esc_char(c));
            }
        } else {
            out.push(c);
        }
        k = k + 1;
        proof {
            assert(v@.subrange(0, k as int) =~= v@.subrange(0, k - 1).push(v@[k - 1]));
            lemma_escape_snoc(v@.subrange(0, k - 1), v@[k - 1]);
            assert(out@ =~= old(out)@ + escape(v@.subrange(0, k as int)));
        }
    }
    proof {
        assert(v@.subrange(0, n as int) =~= v@);
    }
}

/// Writes one field line.
fn push_field(out: &mut Vec<char>, name: &str, f: &ExecField, last: bool)
    ensures
        final(out)@ == old(out)@ + ser_field(name@, f@, last),
{
    push_lit(out, "    \"");
    push_lit(out, name);
    push_lit(out, "\": ");
    match f {
        ExecField::S(v) => {
            push_lit(out, "\"");
            push_escaped_chars(out, v);
            push_lit(out, "\"");
            proof {
                reveal_strlit("\"");
                assert("\""@ =~= seq!['"']);
            }
        },
        ExecField::U(n) => {
            push_u8_dec(out, *n);
        },
        ExecField::B(b) => {
            push_bool(out, *b);
        },
    }
    if last {
        push_lit(out, "\n");
    } else {
        push_lit(out, ",\n");
    }
    proof {
        assert(out@ =~= old(out)@ + ser_field(name@, f@, last));
    }
}

/// Writes a whole field list.
fn write_fields(out: &mut Vec<char>, names: &Vec<&str>, vals: &Vec<ExecField>)
    requires
        names@.len() == vals@.len(),
    ensures
        final(out)@ == old(out)@ + ser_fields(views_of(names@), fields_view(vals@), 0),
{
    let ghost sn = views_of(names@);
    let ghost sv = fields_view(vals@);
    let n = names.len();
    let mut k: usize = 0;
    while k < n
        invariant
            k <= n,
            n == names@.len(),
            n == vals@.len(),
            sn == views_of(names@),
            sv == fields_view(vals@),
            out@ + ser_fields(sn, sv, k as int) == old(out)@ + ser_fields(sn, sv, 0),
        decreases n - k,
    {
        let ghost before = out@;
        push_field(out, names[k], &vals[k], k == n - 1);
        proof {
            assert(sn[k as int] == names@[k as int]@);
            assert(sv[k as int] == vals@[k as int]@);
            assert(ser_fields(sn, sv, k as int) == ser_field(sn[k as int], sv[k as int], k == n - 1)
                + ser_fields(sn, sv, k + 1));
            assert(out@ + ser_fields(sn, sv, k + 1) =~= before + ser_fields(sn, sv, k as int));
        }
        k = k + 1;
    }
    proof {
        assert(ser_fields(sn, sv, n as int) == Seq::<char>::empty());
        assert(out@ =~= out@ + ser_fields(sn, sv, n as int));
    }
}

/// Writes one section.
fn write_section(out: &mut Vec<char>, name: &str, names: &Vec<&str>, vals: &Vec<ExecField>, last: bool)
    requires
        names@.len() == vals@.len(),
    ensures
        final(out)@ == old(out)@ + ser_section(name@, views_of(names@), fields_view(vals@), last),
{
    push_lit(out, "  \"");
    push_lit(out, name);
    push_lit(out, "\": {\n");
    write_fields(out, names, vals);
    push_lit(out, "  }");
    if last {
        push_lit(out, "\n");
    } else {
        push_lit(out, ",\n");
    }
    proof {
        assert(out@ =~= old(out)@ + ser_section(name@, views_of(names@), fields_view(vals@), last));
    }
}

/// The identity section's names and values.
fn info_lists(v: &Information) -> (r: (Vec<&'static str>, Vec<ExecField>))
    ensures
        views_of(r.0@) == info_names(),
        fields_view(r.1@) == info_vals(v@),
        r.0@.len() == r.1@.len(),
{
    let mut names: Vec<&'static str> = Vec::new();
    let mut vals: Vec<ExecField> = Vec::new();
    names.push("character_name");
    names.push("class");
    names.push("level");
    names.push("background");
    names.push("player_name");
    names.push("race");
    names.push("alignment");
    names.push("experience");
    vals.push(ExecField::S(str_chars(v.character_name.as_str())));
    vals.push(ExecField::S(str_chars(v.class.as_str())));
    vals.push(ExecField::U(v.level));
    vals.push(ExecField::S(str_chars(v.background.as_str())));
    vals.push(ExecField::S(str_chars(v.player_name.as_str())));
    vals.push(ExecField::S(str_chars(v.race.as_str())));
    vals.push(ExecField::S(str_chars(v.alignment.as_str())));
    vals.push(ExecField::S(str_chars(v.experience.as_str())));
    proof {
        reveal(info_names);
        reveal(info_vals);
        assert(fields_view(vals@) =~= info_vals(v@));
    }
    (names, vals)
}

/// The statistics section's names and values.
fn stats_lists(v: &Statistics) -> (r: (Vec<&'static str>, Vec<ExecField>))
    ensures
        views_of(r.0@) == stats_names(),
        fields_view(r.1@) == stats_vals(*v),
        r.0@.len() == r.1@.len(),
{
    let mut names: Vec<&'static str> = Vec::new();
    let mut vals: Vec<ExecField> = Vec::new();
    names.push("strength");
    names.push("dexterity");
    names.push("constitution");
    names.push("intelligence");
    names.push("wisdom");
    names.push("charisma");
    names.push("inspiration");
    names.push("proficiency_bonus");
    names.push("passive_wisdom_perception");
    vals.push(ExecField::U(v.strength));
    vals.push(ExecField::U(v.dexterity));
    vals.push(ExecField::U(v.constitution));
    vals.push(ExecField::U(v.intelligence));
    vals.push(ExecField::U(v.wisdom));
    vals.push(ExecField::U(v.charisma));
    vals.push(ExecField::B(v.inspiration));
    vals.push(ExecField::U(v.proficiency_bonus));
    vals.push(ExecField::U(v.passive_wisdom_perception));
    proof {
        reveal(stats_names);
        reveal(stats_vals);
        assert(fields_view(vals@) =~= stats_vals(*v));
    }
    (names, vals)
}

/// The saving-throw section's names and values.
fn saves_lists(v: &SavingThrows) -> (r: (Vec<&'static str>, Vec<ExecField>))
    ensures
        views_of(r.0@) == saves_names(),
        fields_view(r.1@) == saves_vals(*v),
        r.0@.len() == r.1@.len(),
{
    let mut names: Vec<&'static str> = Vec::new();
    let mut vals: Vec<ExecField> = Vec::new();
    names.push("strength_proficent");
    names.push("dexterity_proficent");
    names.push("constitution_proficent");
    names.push("intelligence_proficent");
    names.push("wisdom_proficent");
    names.push("charisma_proficent");
    vals.push(ExecField::B(v.strength_proficent));
    vals.push(ExecField::B(v.dexterity_proficent));
    vals.push(ExecField::B(v.constitution_proficent));
    vals.push(ExecField::B(v.intelligence_proficent));
    vals.push(ExecField::B(v.wisdom_proficent));
    vals.push(ExecField::B(v.charisma_proficent));
    proof {
        reveal(saves_names);
        reveal(saves_vals);
        assert(fields_view(vals@) =~= saves_vals(*v));
    }
    (names, vals)
}

/// The skills section's names and values.
fn skills_lists(v: &Skills) -> (r: (Vec<&'static str>, Vec<ExecField>))
    ensures
        views_of(r.0@) == skills_names(),
        fields_view(r.1@) == skills_vals(v@),
        r.0@.len() == r.1@.len(),
{
    let mut names: Vec<&'static str> = Vec::new();
    let mut vals: Vec<ExecField> = Vec::new();
    names.push("acrobatics");
    names.push("animal_handling");
    names.push("arcana");
    names.push("athletics");
    names.push("deception");
    names.push("history");
    names.push("insight");
    names.push("intimidation");
    names.push("investigation");
    names.push("medicine");
    names.push("nature");
    names.push("perception");
    names.push("performance");
    names.push("persuasion");
    names.push("religion");
    names.push("slight_of_hand");
    names.push("stealth");
    names.push("survival");
    names.push("acrobatics_skill");
    names.push("animal_handling_skill");
    names.push("arcana_skill");
    names.push("athletics_skill");
    names.push("deception_skill");
    names.push("history_skill");
    names.push("insight_skill");
    names.push("intimidation_skill");
    names.push("investigation_skill");
    names.push("medicine_skill");
    names.push("nature_skill");
    names.push("perception_skill");
    names.push("performance_skill");
    names.push("persuasion_skill");
    names.push("religion_skill");
    names.push("slight_of_hand_skill");
    names.push("stealth_skill");
    names.push("survival_skill");
    vals.push(ExecField::S(str_chars(v.acrobatics.as_str())));
    vals.push(ExecField::S(str_chars(v.animal_handling.as_str())));
    vals.push(ExecField::S(str_chars(v.arcana.as_str())));
    vals.push(ExecField::S(str_chars(v.athletics.as_str())));
    vals.push(ExecField::S(str_chars(v.deception.as_str())));
    vals.push(ExecField::S(str_chars(v.history.as_str())));
    vals.push(ExecField::S(str_chars(v.insight.as_str())));
    vals.push(ExecField::S(str_chars(v.intimidation.as_str())));
    vals.push(ExecField::S(str_chars(v.investigation.as_str())));
    vals.push(ExecField::S(str_chars(v.medicine.as_str())));
    vals.push(ExecField::S(str_chars(v.nature.as_str())));
    vals.push(ExecField::S(str_chars(v.perception.as_str())));
    vals.push(ExecField::S(str_chars(v.performance.as_str())));
    vals.push(ExecField::S(str_chars(v.persuasion.as_str())));
    vals.push(ExecField::S(str_chars(v.religion.as_str())));
    vals.push(ExecField::S(str_chars(v.slight_of_hand.as_str())));
    vals.push(ExecField::S(str_chars(v.stealth.as_str())));
    vals.push(ExecField::S(str_chars(v.survival.as_str())));
    vals.push(ExecField::S(str_chars(v.acrobatics_skill.as_str())));
    vals.push(ExecField::S(str_chars(v.animal_handling_skill.as_str())));
    vals.push(ExecField::S(str_chars(v.arcana_skill.as_str())));
    vals.push(ExecField::S(str_chars(v.athletics_skill.as_str())));
    vals.push(ExecField::S(str_chars(v.deception_skill.as_str())));
    vals.push(ExecField::S(str_chars(v.history_skill.as_str())));
    vals.push(ExecField::S(str_chars(v.insight_skill.as_str())));
    vals.push(ExecField::S(str_chars(v.intimidation_skill.as_str())));
    vals.push(ExecField::S(str_chars(v.investigation_skill.as_str())));
    vals.push(ExecField::S(str_chars(v.medicine_skill.as_str())));
    vals.push(ExecField::S(str_chars(v.nature_skill.as_str())));
    vals.push(ExecField::S(str_chars(v.perception_skill.as_str())));
    vals.push(ExecField::S(str_chars(v.performance_skill.as_str())));
    vals.push(ExecField::S(str_chars(v.persuasion_skill.as_str())));
    vals.push(ExecField::S(str_chars(v.religion_skill.as_str())));
    vals.push(ExecField::S(str_chars(v.slight_of_hand_skill.as_str())));
    vals.push(ExecField::S(str_chars(v.stealth_skill.as_str())));
    vals.push(ExecField::S(str_chars(v.survival_skill.as_str())));
    proof {
        reveal(skills_names);
        reveal(skills_vals);
        assert(fields_view(vals@) =~= skills_vals(v@));
    }
    (names, vals)
}

/// The proficiencies section's names and values.
fn prof_lists(v: &ProficienciesAndLanguage) -> (r: (Vec<&'static str>, Vec<ExecField>))
    ensures
        views_of(r.0@) == prof_names(),
        fields_view(r.1@) == prof_vals(v@),
        r.0@.len() == r.1@.len(),
{
    let mut names: Vec<&'static str> = Vec::new();
    let mut vals: Vec<ExecField> = Vec::new();
    names.push("languages_known");
    names.push("armor_proficiency");
    names.push("weapon_proficiency");
    names.push("tools_proficiency");
    vals.push(ExecField::S(str_chars(v.languages_known.as_str())));
    vals.push(ExecField::S(str_chars(v.armor_proficiency.as_str())));
    vals.push(ExecField::S(str_chars(v.weapon_proficiency.as_str())));
    vals.push(ExecField::S(str_chars(v.tools_proficiency.as_str())));
    proof {
        reveal(prof_names);
        reveal(prof_vals);
        assert(fields_view(vals@) =~= prof_vals(v@));
    }
    (names, vals)
}

/// The health section's names and values.
fn health_lists(v: &Health) -> (r: (Vec<&'static str>, Vec<ExecField>))
    ensures
        views_of(r.0@) == health_names(),
        fields_view(r.1@) == health_vals(v@),
        r.0@.len() == r.1@.len(),
{
    let mut names: Vec<&'static str> = Vec::new();
    let mut vals: Vec<ExecField> = Vec::new();
    names.push("armor_class");
    names.push("initiative");
    names.push("speed");
    names.push("current_hp");
    names.push("maximum_hp");
    names.push("temporary_hp");
    names.push("hit_dice_type");
    names.push("total_hit_dice");
    names.push("current_hit_dice");
    names.push("unconcicious");
    names.push("death_save_saves");
    names.push("death_save_failes");
    vals.push(ExecField::U(v.armor_class));
    vals.push(ExecField::S(str_chars(v.initiative.as_str())));
    vals.push(ExecField::U(v.speed));
    vals.push(ExecField::U(v.current_hp));
    vals.push(ExecField::U(v.maximum_hp));
    vals.push(ExecField::U(v.temporary_hp));
    vals.push(ExecField::S(str_chars(v.hit_dice_type.as_str())));
    vals.push(ExecField::U(v.total_hit_dice));
    vals.push(ExecField::U(v.current_hit_dice));
    vals.push(ExecField::B(v.unconcicious));
    vals.push(ExecField::S(str_chars(v.death_save_saves.as_str())));
    vals.push(ExecField::S(str_chars(v.death_save_failes.as_str())));
    proof {
        reveal(health_names);
        reveal(health_vals);
        assert(fields_view(vals@) =~= health_vals(v@));
    }
    (names, vals)
}

/// Writes the whole sheet in the document format.
pub fn sheet_to_text(s: &CharSheet) -> (out: Vec<char>)
    ensures
        out@ == ser_sheet(s@),
{
    let mut out: Vec<char> = Vec::new();
    push_lit(&mut out, "{\n");
    let (names, vals) = info_lists(&s.information);
    write_section(&mut out, "information", &names, &vals, false);
    let (names, vals) = stats_lists(&s.statistics);
    write_section(&mut out, "statistics", &names, &vals, false);
    let (names, vals) = saves_lists(&s.saving_throws);
    write_section(&mut out, "saving_throws", &names, &vals, false);
    let (names, vals) = skills_lists(&s.skills);
    write_section(&mut out, "skills", &names, &vals, false);
    let (names, vals) = prof_lists(&s.proficiencies_and_language);
    write_section(&mut out, "proficiencies_and_language", &names, &vals, false);
    let (names, vals) = health_lists(&s.health);
    write_section(&mut out, "health", &names, &vals, true);
    push_lit(&mut out, "}");
    proof {
        assert(out@ =~= ser_sheet(s@));
    }
    out
}


/// The text of a text field, when it is one.
fn field_str(f: &ExecField) -> (r: Option<String>)
    ensures
        match r {
            Some(s) => f@ is S && s@ == as_s(f@),
            None => !(f@ is S),
        },
{
    match f {
        ExecField::S(v) => Some(chars_to_string(v)),
        _ => None,
    }
}

/// The number of a numeric field, when it is one.
fn field_u8(f: &ExecField) -> (r: Option<u8>)
    ensures
        match r {
            Some(n) => f@ is U && n == as_u(f@),
            None => !(f@ is U),
        },
{
    match f {
        ExecField::U(n) => Some(*n),
        _ => None,
    }
}

/// The flag of a boolean field, when it is one.
fn field_bool(f: &ExecField) -> (r: Option<bool>)
    ensures
        match r {
            Some(b) => f@ is B && b == as_b(f@),
            None => !(f@ is B),
        },
{
    match f {
        ExecField::B(b) => Some(*b),
        _ => None,
    }
}

/// The identity section's field names.
fn info_names_vec() -> (r: Vec<&'static str>)
    ensures
        views_of(r@) == info_names(),
{
    let mut names: Vec<&'static str> = Vec::new();
    names.push("character_name");
    names.push("class");
    names.push("level");
    names.push("background");
    names.push("player_name");
    names.push("race");
    names.push("alignment");
    names.push("experience");
    proof {
        reveal(info_names);
        assert(views_of(names@) =~= info_names());
    }
    names
}

/// The statistics section's field names.
fn stats_names_vec() -> (r: Vec<&'static str>)
    ensures
        views_of(r@) == stats_names(),
{
    let mut names: Vec<&'static str> = Vec::new();
    names.push("strength");
    names.push("dexterity");
    names.push("constitution");
    names.push("intelligence");
    names.push("wisdom");
    names.push("charisma");
    names.push("inspiration");
    names.push("proficiency_bonus");
    names.push("passive_wisdom_perception");
    proof {
        reveal(stats_names);
        assert(views_of(names@) =~= stats_names());
    }
    names
}

/// The saving-throw section's field names.
fn saves_names_vec() -> (r: Vec<&'static str>)
    ensures
        views_of(r@) == saves_names(),
{
    let mut names: Vec<&'static str> = Vec::new();
    names.push("strength_proficent");
    names.push("dexterity_proficent");
    names.push("constitution_proficent");
    names.push("intelligence_proficent");
    names.push("wisdom_proficent");
    names.push("charisma_proficent");
    proof {
        reveal(saves_names);
        assert(views_of(names@) =~= saves_names());
    }
    names
}

/// The skills section's field names.
fn skills_names_vec() -> (r: Vec<&'static str>)
    ensures
        views_of(r@) == skills_names(),
{
    let mut names: Vec<&'static str> = Vec::new();
    names.push("acrobatics");
    names.push("animal_handling");
    names.push("arcana");
    names.push("athletics");
    names.push("deception");
    names.push("history");
    names.push("insight");
    names.push("intimidation");
    names.push("investigation");
    names.push("medicine");
    names.push("nature");
    names.push("perception");
    names.push("performance");
    names.push("persuasion");
    names.push("religion");
    names.push("slight_of_hand");
    names.push("stealth");
    names.push("survival");
    names.push("acrobatics_skill");
    names.push("animal_handling_skill");
    names.push("arcana_skill");
    names.push("athletics_skill");
    names.push("deception_skill");
    names.push("history_skill");
    names.push("insight_skill");
    names.push("intimidation_skill");
    names.push("investigation_skill");
    names.push("medicine_skill");
    names.push("nature_skill");
    names.push("perception_skill");
    names.push("performance_skill");
    names.push("persuasion_skill");
    names.push("religion_skill");
    names.push("slight_of_hand_skill");
    names.push("stealth_skill");
    names.push("survival_skill");
    proof {
        reveal(skills_names);
        assert(views_of(names@) =~= skills_names());
    }
    names
}

/// The proficiencies section's field names.
fn prof_names_vec() -> (r: Vec<&'static str>)
    ensures
        views_of(r@) == prof_names(),
{
    let mut names: Vec<&'static str> = Vec::new();
    names.push("languages_known");
    names.push("armor_proficiency");
    names.push("weapon_proficiency");
    names.push("tools_proficiency");
    proof {
        reveal(prof_names);
        assert(views_of(names@) =~= prof_names());
    }
    names
}

/// The health section's field names.
fn health_names_vec() -> (r: Vec<&'static str>)
    ensures
        views_of(r@) == health_names(),
{
    let mut names: Vec<&'static str> = Vec::new();
    names.push("armor_class");
    names.push("initiative");
    names.push("speed");
    names.push("current_hp");
    names.push("maximum_hp");
    names.push("temporary_hp");
    names.push("hit_dice_type");
    names.push("total_hit_dice");
    names.push("current_hit_dice");
    names.push("unconcicious");
    names.push("death_save_saves");
    names.push("death_save_failes");
    proof {
        reveal(health_names);
        assert(views_of(names@) =~= health_names());
    }
    names
}

/// Builds the identity record from parsed fields.
fn extract_information(fs: &Vec<ExecField>) -> (r: Option<Information>)
    ensures
        match r {
            Some(x) => info_ok(fields_view(fs@)) && x@ == info_of(fields_view(fs@)),
            None => !info_ok(fields_view(fs@)),
        },
{
    if fs.len() != 8 {
        return None;
    }
    let character_name = match field_str(vec_index(fs, 0)) {
        Some(x) => x,
        None => {
            return None;
        },
    };
    let class = match field_str(vec_index(fs, 1)) {
        Some(x) => x,
        None => {
            return None;
        },
    };
    let level = match field_u8(vec_index(fs, 2)) {
        Some(x) => x,
        None => {
            return None;
        },
    };
    let background = match field_str(vec_index(fs, 3)) {
        Some(x) => x,
        None => {
            return None;
        },
    };
    let player_name = match field_str(vec_index(fs, 4)) {
        Some(x) => x,
        None => {
            return None;
        },
    };
    let race = match field_str(vec_index(fs, 5)) {
        Some(x) => x,
        None => {
            return None;
        },
    };
    let alignment = match field_str(vec_index(fs, 6)) {
        Some(x) => x,
        None => {
            return None;
        },
    };
    let experience = match field_str(vec_index(fs, 7)) {
        Some(x) => x,
        None => {
            return None;
        },
    };
    let x = Information {
        character_name,
        class,
        level,
        background,
        player_name,
        race,
        alignment,
        experience,
    };
    proof {
        assert(x@ =~= info_of(fields_view(fs@)));
    }
    Some(x)
}

/// Builds the statistics record from parsed fields.
fn extract_statistics(fs: &Vec<ExecField>) -> (r: Option<Statistics>)
    ensures
        match r {
            Some(x) => stats_ok(fields_view(fs@)) && x == stats_of(fields_view(fs@)),
            None => !stats_ok(fields_view(fs@)),
        },
{
    if fs.len() != 9 {
        return None;
    }
    let strength = match field_u8(vec_index(fs, 0)) {
        Some(x) => x,
        None => {
            return None;
        },
    };
    let dexterity = match field_u8(vec_index(fs, 1)) {
        Some(x) => x,
        None => {
            return None;
        },
    };
    let constitution = match field_u8(vec_index(fs, 2)) {
        Some(x) => x,
        None => {
            return None;
        },
    };
    let intelligence = match field_u8(vec_index(fs, 3)) {
        Some(x) => x,
        None => {
            return None;
        },
    };
    let wisdom = match field_u8(vec_index(fs, 4)) {
        Some(x) => x,
        None => {
            return None;
        },
    };
    let charisma = match field_u8(vec_index(fs, 5)) {
        Some(x) => x,
        None => {
            return None;
        },
    };
    let inspiration = match field_bool(vec_index(fs, 6)) {
        Some(x) => x,
        None => {
            return None;
        },
    };
    let proficiency_bonus = match field_u8(vec_index(fs, 7)) {
        Some(x) => x,
        None => {
            return None;
        },
    };
    let passive_wisdom_perception = match field_u8(vec_index(fs, 8)) {
        Some(x) => x,
        None => {
            return None;
        },
    };
    let x = Statistics {
        strength,
        dexterity,
        constitution,
        intelligence,
        wisdom,
        charisma,
        inspiration,
        proficiency_bonus,
        passive_wisdom_perception,
    };
    proof {
        assert(x =~= stats_of(fields_view(fs@)));
    }
    Some(x)
}

/// Builds the saving-throw record from parsed fields.
fn extract_saves(fs: &Vec<ExecField>) -> (r: Option<SavingThrows>)
    ensures
        match r {
            Some(x) => saves_ok(fields_view(fs@)) && x == saves_of(fields_view(fs@)),
            None => !saves_ok(fields_view(fs@)),
        },
{
    if fs.len() != 6 {
        return None;
    }
    let strength_proficent = match field_bool(vec_index(fs, 0)) {
        Some(x) => x,
        None => {
            return None;
        },
    };
    let dexterity_proficent = match field_bool(vec_index(fs, 1)) {
        Some(x) => x,
        None => {
            return None;
        },
    };
    let constitution_proficent = match field_bool(vec_index(fs, 2)) {
        Some(x) => x,
        None => {
            return None;
        },
    };
    let intelligence_proficent = match field_bool(vec_index(fs, 3)) {
        Some(x) => x,
        None => {
            return None;
        },
    };
    let wisdom_proficent = match field_bool(vec_index(fs, 4)) {
        Some(x) => x,
        None => {
            return None;
        },
    };
    let charisma_proficent = match field_bool(vec_index(fs, 5)) {
        Some(x) => x,
        None => {
            return None;
        },
    };
    let x = SavingThrows {
        strength_proficent,
        dexterity_proficent,
        constitution_proficent,
        intelligence_proficent,
        wisdom_proficent,
        charisma_proficent,
    };
    proof {
        assert(x =~= saves_of(fields_view(fs@)));
    }
    Some(x)
}

/// Builds the skills record from parsed fields.
fn extract_skills(fs: &Vec<ExecField>) -> (r: Option<Skills>)
    ensures
        match r {
            Some(x) => skills_ok(fields_view(fs@)) && x@ == skills_of(fields_view(fs@)),
            None => !skills_ok(fields_view(fs@)),
        },
{
    if fs.len() != 36 {
        return None;
    }
    let acrobatics = match field_str(vec_index(fs, 0)) {
        Some(x) => x,
        None => {
            return None;
        },
    };
    let animal_handling = match field_str(vec_index(fs, 1)) {
        Some(x) => x,
        None => {
            return None;
        },
    };
    let arcana = match field_str(vec_index(fs, 2)) {
        Some(x) => x,
        None => {
            return None;
        },
    };
    let athletics = match field_str(vec_index(fs, 3)) {
        Some(x) => x,
        None => {
            return None;
        },
    };
    let deception = match field_str(vec_index(fs, 4)) {
        Some(x) => x,
        None => {
            return None;
        },
    };
    let history = match field_str(vec_index(fs, 5)) {
        Some(x) => x,
        None => {
            return None;
        },
    };
    let insight = match field_str(vec_index(fs, 6)) {
        Some(x) => x,
        None => {
            return None;
        },
    };
    let intimidation = match field_str(vec_index(fs, 7)) {
        Some(x) => x,
        None => {
            return None;
        },
    };
    let investigation = match field_str(vec_index(fs, 8)) {
        Some(x) => x,
        None => {
            return None;
        },
    };
    let medicine = match field_str(vec_index(fs, 9)) {
        Some(x) => x,
        None => {
            return None;
        },
    };
    let nature = match field_str(vec_index(fs, 10)) {
        Some(x) => x,
        None => {
            return None;
        },
    };
    let perception = match field_str(vec_index(fs, 11)) {
        Some(x) => x,
        None => {
            return None;
        },
    };
    let performance = match field_str(vec_index(fs, 12)) {
        Some(x) => x,
        None => {
            return None;
        },
    };
    let persuasion = match field_str(vec_index(fs, 13)) {
        Some(x) => x,
        None => {
            return None;
        },
    };
    let religion = match field_str(vec_index(fs, 14)) {
        Some(x) => x,
        None => {
            return None;
        },
    };
    let slight_of_hand = match field_str(vec_index(fs, 15)) {
        Some(x) => x,
        None => {
            return None;
        },
    };
    let stealth = match field_str(vec_index(fs, 16)) {
        Some(x) => x,
        None => {
            return None;
        },
    };
    let survival = match field_str(vec_index(fs, 17)) {
        Some(x) => x,
        None => {
            return None;
        },
    };
    let acrobatics_skill = match field_str(vec_index(fs, 18)) {
        Some(x) => x,
        None => {
            return None;
        },
    };
    let animal_handling_skill = match field_str(vec_index(fs, 19)) {
        Some(x) => x,
        None => {
            return None;
        },
    };
    let arcana_skill = match field_str(vec_index(fs, 20)) {
        Some(x) => x,
        None => {
            return None;
        },
    };
    let athletics_skill = match field_str(vec_index(fs, 21)) {
        Some(x) => x,
        None => {
            return None;
        },
    };
    let deception_skill = match field_str(vec_index(fs, 22)) {
        Some(x) => x,
        None => {
            return None;
        },
    };
    let history_skill = match field_str(vec_index(fs, 23)) {
        Some(x) => x,
        None => {
            return None;
        },
    };
    let insight_skill = match field_str(vec_index(fs, 24)) {
        Some(x) => x,
        None => {
            return None;
        },
    };
    let intimidation_skill = match field_str(vec_index(fs, 25)) {
        Some(x) => x,
        None => {
            return None;
        },
    };
    let investigation_skill = match field_str(vec_index(fs, 26)) {
        Some(x) => x,
        None => {
            return None;
        },
    };
    let medicine_skill = match field_str(vec_index(fs, 27)) {
        Some(x) => x,
        None => {
            return None;
        },
    };
    let nature_skill = match field_str(vec_index(fs, 28)) {
        Some(x) => x,
        None => {
            return None;
        },
    };
    let perception_skill = match field_str(vec_index(fs, 29)) {
        Some(x) => x,
        None => {
            return None;
        },
    };
    let performance_skill = match field_str(vec_index(fs, 30)) {
        Some(x) => x,
        None => {
            return None;
        },
    };
    let persuasion_skill = match field_str(vec_index(fs, 31)) {
        Some(x) => x,
        None => {
            return None;
        },
    };
    let religion_skill = match field_str(vec_index(fs, 32)) {
        Some(x) => x,
        None => {
            return None;
        },
    };
    let slight_of_hand_skill = match field_str(vec_index(fs, 33)) {
        Some(x) => x,
        None => {
            return None;
        },
    };
    let stealth_skill = match field_str(vec_index(fs, 34)) {
        Some(x) => x,
        None => {
            return None;
        },
    };
    let survival_skill = match field_str(vec_index(fs, 35)) {
        Some(x) => x,
        None => {
            return None;
        },
    };
    let x = Skills {
        acrobatics,
        animal_handling,
        arcana,
        athletics,
        deception,
        history,
        insight,
        intimidation,
        investigation,
        medicine,
        nature,
        perception,
        performance,
        persuasion,
        religion,
        slight_of_hand,
        stealth,
        survival,
        acrobatics_skill,
        animal_handling_skill,
        arcana_skill,
        athletics_skill,
        deception_skill,
        history_skill,
        insight_skill,
        intimidation_skill,
        investigation_skill,
        medicine_skill,
        nature_skill,
        perception_skill,
        performance_skill,
        persuasion_skill,
        religion_skill,
        slight_of_hand_skill,
        stealth_skill,
        survival_skill,
    };
    proof {
        assert(x@ =~= skills_of(fields_view(fs@)));
    }
    Some(x)
}

/// Builds the proficiencies record from parsed fields.
fn extract_prof(fs: &Vec<ExecField>) -> (r: Option<ProficienciesAndLanguage>)
    ensures
        match r {
            Some(x) => prof_ok(fields_view(fs@)) && x@ == prof_of(fields_view(fs@)),
            None => !prof_ok(fields_view(fs@)),
        },
{
    if fs.len() != 4 {
        return None;
    }
    let languages_known = match field_str(vec_index(fs, 0)) {
        Some(x) => x,
        None => {
            return None;
        },
    };
    let armor_proficiency = match field_str(vec_index(fs, 1)) {
        Some(x) => x,
        None => {
            return None;
        },
    };
    let weapon_proficiency = match field_str(vec_index(fs, 2)) {
        Some(x) => x,
        None => {
            return None;
        },
    };
    let tools_proficiency = match field_str(vec_index(fs, 3)) {
        Some(x) => x,
        None => {
            return None;
        },
    };
    let x = ProficienciesAndLanguage {
        languages_known,
        armor_proficiency,
        weapon_proficiency,
        tools_proficiency,
    };
    proof {
        assert(x@ =~= prof_of(fields_view(fs@)));
    }
    Some(x)
}

/// Builds the health record from parsed fields.
fn extract_health(fs: &Vec<ExecField>) -> (r: Option<Health>)
    ensures
        match r {
            Some(x) => health_ok(fields_view(fs@)) && x@ == health_of(fields_view(fs@)),
            None => !health_ok(fields_view(fs@)),
        },
{
    if fs.len() != 12 {
        return None;
    }
    let armor_class = match field_u8(vec_index(fs, 0)) {
        Some(x) => x,
        None => {
            return None;
        },
    };
    let initiative = match field_str(vec_index(fs, 1)) {
        Some(x) => x,
        None => {
            return None;
        },
    };
    let speed = match field_u8(vec_index(fs, 2)) {
        Some(x) => x,
        None => {
            return None;
        },
    };
    let current_hp = match field_u8(vec_index(fs, 3)) {
        Some(x) => x,
        None => {
            return None;
        },
    };
    let maximum_hp = match field_u8(vec_index(fs, 4)) {
        Some(x) => x,
        None => {
            return None;
        },
    };
    let temporary_hp = match field_u8(vec_index(fs, 5)) {
        Some(x) => x,
        None => {
            return None;
        },
    };
    let hit_dice_type = match field_str(vec_index(fs, 6)) {
        Some(x) => x,
        None => {
            return None;
        },
    };
    let total_hit_dice = match field_u8(vec_index(fs, 7)) {
        Some(x) => x,
        None => {
            return None;
        },
    };
    let current_hit_dice = match field_u8(vec_index(fs, 8)) {
        Some(x) => x,
        None => {
            return None;
        },
    };
    let unconcicious = match field_bool(vec_index(fs, 9)) {
        Some(x) => x,
        None => {
            return None;
        },
    };
    let death_save_saves = match field_str(vec_index(fs, 10)) {
        Some(x) => x,
        None => {
            return None;
        },
    };
    let death_save_failes = match field_str(vec_index(fs, 11)) {
        Some(x) => x,
        None => {
            return None;
        },
    };
    let x = Health {
        armor_class,
        initiative,
        speed,
        current_hp,
        maximum_hp,
        temporary_hp,
        hit_dice_type,
        total_hit_dice,
        current_hit_dice,
        unconcicious,
        death_save_saves,
        death_save_failes,
    };
    proof {
        assert(x@ =~= health_of(fields_view(fs@)));
    }
    Some(x)
}

/// Reads a whole document back into a sheet; exactly the documents that
/// `sp_sheet` accepts are accepted.
pub fn sheet_from_text(t: &Vec<char>) -> (r: Option<CharSheet>)
    ensures
        match r {
            Some(s) => sp_sheet(t@) == Some(s@),
            None => sp_sheet(t@) is None,
        },
{
    let i0 = match read_lit(t, 0, "{\n") {
        Some(p) => p,
        None => {
            return None;
        },
    };
    let names = info_names_vec();
    let (fs1, i1) = match read_section(t, i0, "information", &names, false) {
        Some(p) => p,
        None => {
            return None;
        },
    };
    let names = stats_names_vec();
    let (fs2, i2) = match read_section(t, i1, "statistics", &names, false) {
        Some(p) => p,
        None => {
            return None;
        },
    };
    let names = saves_names_vec();
    let (fs3, i3) = match read_section(t, i2, "saving_throws", &names, false) {
        Some(p) => p,
        None => {
            return None;
        },
    };
    let names = skills_names_vec();
    let (fs4, i4) = match read_section(t, i3, "skills", &names, false) {
        Some(p) => p,
        None => {
            return None;
        },
    };
    let names = prof_names_vec();
    let (fs5, i5) = match read_section(t, i4, "proficiencies_and_language", &names, false) {
        Some(p) => p,
        None => {
            return None;
        },
    };
    let names = health_names_vec();
    let (fs6, i6) = match read_section(t, i5, "health", &names, true) {
        Some(p) => p,
        None => {
            return None;
        },
    };
    let i7 = match read_lit(t, i6, "}") {
        Some(p) => p,
        None => {
            return None;
        },
    };
    if i7 != t.len() {
        return None;
    }
    let information = match extract_information(&fs1) {
        Some(x) => x,
        None => {
            return None;
        },
    };
    let statistics = match extract_statistics(&fs2) {
        Some(x) => x,
        None => {
            return None;
        },
    };
    let saving_throws = match extract_saves(&fs3) {
        Some(x) => x,
        None => {
            return None;
        },
    };
    let skills = match extract_skills(&fs4) {
        Some(x) => x,
        None => {
            return None;
        },
    };
    let proficiencies_and_language = match extract_prof(&fs5) {
        Some(x) => x,
        None => {
            return None;
        },
    };
    let health = match extract_health(&fs6) {
        Some(x) => x,
        None => {
            return None;
        },
    };
    let sheet = CharSheet {
        information,
        statistics,
        saving_throws,
        skills,
        proficiencies_and_language,
        health,
    };
    proof {
        assert(sheet@ =~= sp_sheet(t@).unwrap());
    }
    Some(sheet)
}

/// The windows of an eight-piece concatenation: each piece is the
/// window of the whole at its offset.
proof fn lemma_concat8_windows(
    t: Seq<char>,
    a: Seq<char>,
    b: Seq<char>,
    c: Seq<char>,
    d: Seq<char>,
    e: Seq<char>,
    f: Seq<char>,
    g: Seq<char>,
    h: Seq<char>,
)
    requires
        t == a + b + c + d + e + f + g + h,
    ensures
        t.len() == a.len() + b.len() + c.len() + d.len() + e.len() + f.len() + g.len() + h.len(),
        t.subrange(0, a.len() as int) == a,
        t.subrange(a.len() as int, a.len() as int + b.len()) == b,
        t.subrange(a.len() as int + b.len(), a.len() as int + b.len() + c.len()) == c,
        t.subrange(
            a.len() as int + b.len() + c.len(),
            a.len() as int + b.len() + c.len() + d.len(),
        ) == d,
        t.subrange(
            a.len() as int + b.len() + c.len() + d.len(),
            a.len() as int + b.len() + c.len() + d.len() + e.len(),
        ) == e,
        t.subrange(
            a.len() as int + b.len() + c.len() + d.len() + e.len(),
            a.len() as int + b.len() + c.len() + d.len() + e.len() + f.len(),
        ) == f,
        t.subrange(
            a.len() as int + b.len() + c.len() + d.len() + e.len() + f.len(),
            a.len() as int + b.len() + c.len() + d.len() + e.len() + f.len() + g.len(),
        ) == g,
        t.subrange(
            a.len() as int + b.len() + c.len() + d.len() + e.len() + f.len() + g.len(),
            a.len() as int + b.len() + c.len() + d.len() + e.len() + f.len() + g.len() + h.len(),
        ) == h,
{
    assert(t.subrange(0, t.len() as int) =~= t);
    lemma_window_split(t, 0, a + b + c + d + e + f + g, h);
    lemma_window_split(t, 0, a + b + c + d + e + f, g);
    lemma_window_split(t, 0, a + b + c + d + e, f);
    lemma_window_split(t, 0, a + b + c + d, e);
    lemma_window_split(t, 0, a + b + c, d);
    lemma_window_split(t, 0, a + b, c);
    lemma_window_split(t, 0, a, b);
}

/// The identity values round-trip through their field list.
proof fn lemma_info_vals_ok(v: InformationV)
    ensures
        info_names().len() == 8,
        info_vals(v).len() == 8,
        info_ok(info_vals(v)),
        info_of(info_vals(v)) == v,
{
    reveal(info_names);
    reveal(info_vals);
    assert(info_of(info_vals(v)) =~= v);
}

/// The statistics values round-trip through their field list.
proof fn lemma_stats_vals_ok(v: Statistics)
    ensures
        stats_names().len() == 9,
        stats_vals(v).len() == 9,
        stats_ok(stats_vals(v)),
        stats_of(stats_vals(v)) == v,
{
    reveal(stats_names);
    reveal(stats_vals);
}

/// The saving-throw values round-trip through their field list.
proof fn lemma_saves_vals_ok(v: SavingThrows)
    ensures
        saves_names().len() == 6,
        saves_vals(v).len() == 6,
        saves_ok(saves_vals(v)),
        saves_of(saves_vals(v)) == v,
{
    reveal(saves_names);
    reveal(saves_vals);
}

/// The skills values round-trip through their field list.
#[verifier::rlimit(60)]
#[verifier::spinoff_prover]
proof fn lemma_skills_vals_ok(v: SkillsV)
    requires
        v.scores.len() == 18,
        v.markers.len() == 18,
    ensures
        skills_names().len() == 36,
        skills_vals(v).len() == 36,
        skills_ok(skills_vals(v)),
        skills_of(skills_vals(v)) == v,
{
    reveal(skills_names);
    reveal(skills_vals);
    assert(skills_of(skills_vals(v)).scores =~= v.scores);
    assert(skills_of(skills_vals(v)).markers =~= v.markers);
    assert(skills_of(skills_vals(v)) =~= v);
}

/// The proficiency values round-trip through their field list.
proof fn lemma_prof_vals_ok(v: ProficienciesAndLanguageV)
    ensures
        prof_names().len() == 4,
        prof_vals(v).len() == 4,
        prof_ok(prof_vals(v)),
        prof_of(prof_vals(v)) == v,
{
    reveal(prof_names);
    reveal(prof_vals);
    assert(prof_of(prof_vals(v)) =~= v);
}

/// The health values round-trip through their field list.
proof fn lemma_health_vals_ok(v: HealthV)
    ensures
        health_names().len() == 12,
        health_vals(v).len() == 12,
        health_ok(health_vals(v)),
        health_of(health_vals(v)) == v,
{
    reveal(health_names);
    reveal(health_vals);
    assert(health_of(health_vals(v)) =~= v);
}

/// The round trip of the sheet store: a saved document, read back,
/// yields exactly the sheet that was saved. Stated over the abstract
/// sheet; the sheets the library builds always carry eighteen skill
/// scores and markers.
#[verifier::rlimit(100)]
#[verifier::spinoff_prover]
pub proof fn lemma_sheet_roundtrip(m: CharSheetV)
    requires
        m.skills.scores.len() == 18,
        m.skills.markers.len() == 18,
    ensures
        sp_sheet(ser_sheet(m)) == Some(m),
{
    let t = ser_sheet(m);
    let q1 = "{\n"@;
    let c1 = ser_section("information"@, info_names(), info_vals(m.information), false);
    let c2 = ser_section("statistics"@, stats_names(), stats_vals(m.statistics), false);
    let c3 = ser_section("saving_throws"@, saves_names(), saves_vals(m.saving_throws), false);
    let c4 = ser_section("skills"@, skills_names(), skills_vals(m.skills), false);
    let c5 = ser_section(
        "proficiencies_and_language"@,
        prof_names(),
        prof_vals(m.proficiencies_and_language),
        false,
    );
    let c6 = ser_section("health"@, health_names(), health_vals(m.health), true);
    let q8 = "}"@;
    lemma_info_vals_ok(m.information);
    lemma_stats_vals_ok(m.statistics);
    lemma_saves_vals_ok(m.saving_throws);
    lemma_skills_vals_ok(m.skills);
    lemma_prof_vals_ok(m.proficiencies_and_language);
    lemma_health_vals_ok(m.health);
    lemma_concat8_windows(t, q1, c1, c2, c3, c4, c5, c6, q8);
    let o1 = q1.len() as int;
    let o2 = o1 + c1.len();
    let o3 = o2 + c2.len();
    let o4 = o3 + c3.len();
    let o5 = o4 + c4.len();
    let o6 = o5 + c5.len();
    let o7 = o6 + c6.len();
    assert(sp_lit(t, 0, q1) == Some(o1));
    lemma_section_round(t, o1, "information"@, info_names(), info_vals(m.information), false);
    lemma_section_round(t, o2, "statistics"@, stats_names(), stats_vals(m.statistics), false);
    lemma_section_round(t, o3, "saving_throws"@, saves_names(), saves_vals(m.saving_throws), false);
    lemma_section_round(t, o4, "skills"@, skills_names(), skills_vals(m.skills), false);
    lemma_section_round(
        t,
        o5,
        "proficiencies_and_language"@,
        prof_names(),
        prof_vals(m.proficiencies_and_language),
        false,
    );
    lemma_section_round(t, o6, "health"@, health_names(), health_vals(m.health), true);
    assert(sp_lit(t, o7, q8) == Some(t.len() as int));
    assert(sp_sheet(t).unwrap() =~= m);
}

} // verus!
