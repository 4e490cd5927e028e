//! The text the render pass draws: the pieces of each panel line, built
//! exactly as the dashboard shows them. Panel geometry and styling stay
//! with the terminal layer; the strings it places are computed — and
//! specified — here.

use vstd::prelude::*;
use vstd::string::{StrSliceExecFns, StringExecFns};
use crate::derived::{SavingThrowView, SkillsView, StatView, spec_symbol_str};
use crate::numbers::{
    i8_signed_string, pad_right, spec_dec_str, spec_padded, spec_signed_str, u8_to_string,
};

verus! {

/// The text of one ability box: the signed modifier, then the raw score
/// in parentheses, e.g. `+2 (14)`.
pub fn stat_line(v: &StatView) -> (r: String)
    ensures
        r@ == spec_signed_str(v.modifier as int) + " ("@ + spec_dec_str(v.value as nat) + ")"@,
{
    let mut r = i8_signed_string(v.modifier);
    r.append(" (");
    let score = u8_to_string(v.value);
    r.append(score.as_str());
    r.append(")");
    r
}

/// The proficiency glyph of a saving throw: a filled circle when
/// proficient, an open circle otherwise.
pub fn saving_symbol(proficient: bool) -> (r: &'static str)
    ensures
        proficient ==> r@ == "●"@,
        !proficient ==> r@ == "○"@,
{
    if proficient {
        "●"
    } else {
        "○"
    }
}

/// The three texts of one saving-throw row, in drawing order: the glyph
/// with its trailing space, the name padded to three characters with its
/// trailing space, and the signed total.
pub fn saving_throw_texts(v: &SavingThrowView) -> (r: (String, String, String))
    ensures
        r.0@ == (if v.proficient {
            "●"@
        } else {
            "○"@
        }) + " "@,
        r.1@ == spec_padded(v.name@, 3) + " "@,
        r.2@ == spec_signed_str(v.value as int),
{
    let mut glyph = String::from_str(saving_symbol(v.proficient));
    glyph.append(" ");
    let mut name = pad_right(v.name, 3);
    name.append(" ");
    let value = i8_signed_string(v.value);
    (glyph, name, value)
}

/// The text of one skill row: the proficiency glyph, the name padded to
/// fourteen characters, and the signed value, separated by spaces.
pub fn skill_line(v: &SkillsView) -> (r: String)
    ensures
        r@ == spec_symbol_str(v.sp) + " "@ + spec_padded(v.name@, 14) + " "@ + spec_signed_str(
            v.value as int,
        ),
{
    let mut r = String::from_str(v.sp.symbol());
    r.append(" ");
    let name = pad_right(v.name, 14);
    r.append(name.as_str());
    r.append(" ");
    let value = i8_signed_string(v.value);
    r.append(value.as_str());
    r
}

} // verus!
