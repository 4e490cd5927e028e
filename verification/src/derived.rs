//! Derived statistics: ability modifiers, saving-throw totals and skill
//! views, recomputed from the raw sheet fields on every render.

use vstd::prelude::*;
use vstd::arithmetic::div_mod::lemma_div_is_ordered;
use vstd::string::StringExecFns;
use crate::numbers::{is_valid_i8_string, parse_i8, spec_i8_value};
use crate::sheet::{SavingThrows, Skills, Statistics};

verus! {

/// The ability modifier: the score minus ten, halved with truncation
/// toward zero. Truncation (not flooring) is deliberate: for scores such
/// as 7, `(7 - 10) / 2` gives `-1` here, where flooring would give `-2`.
pub open spec fn spec_ability_mod(score: int) -> int {
    if score >= 10 {
        (score - 10) / 2
    } else {
        -((10 - score) / 2)
    }
}

/// A saving-throw total: the ability modifier, plus the proficiency bonus
/// when the ability is marked proficient.
pub open spec fn spec_saving_throw_value(score: int, proficient: bool, bonus: int) -> int {
    spec_ability_mod(score) + if proficient {
        bonus
    } else {
        0
    }
}

/// Computes the ability modifier for a raw score.
pub fn ability_mod(stat: u8) -> (r: i8)
    ensures
        r as int == spec_ability_mod(stat as int),
        -5 <= r as int <= 122,
{
    if stat >= 10 {
        proof {
            lemma_div_is_ordered((stat - 10) as int, 245, 2);
        }
        ((stat - 10) / 2) as i8
    } else {
        proof {
            lemma_div_is_ordered((10 - stat) as int, 10, 2);
        }
        let k: u8 = (10 - stat) / 2;
        0 - (k as i8)
    }
}

/// One ability as the dashboard shows it: its name, the raw score, and
/// the derived modifier.
#[derive(Clone, Copy, Debug, PartialEq)]
pub struct StatView {
    pub name: &'static str,
    pub value: u8,
    pub modifier: i8,
}

/// `v` is the display entry for the ability called `name` with raw
/// score `score`.
pub open spec fn stat_view_for(v: StatView, name: Seq<char>, score: u8) -> bool {
    &&& v.name@ == name
    &&& v.value == score
    &&& v.modifier as int == spec_ability_mod(score as int)
}

impl Statistics {
    /// The six ability entries in the fixed order STR, DEX, CON, INT,
    /// WIS, CHA, each carrying its derived modifier.
    pub fn ability_scores(&self) -> (r: [StatView; 6])
        ensures
            stat_view_for(r@[0], "STR"@, self.strength),
            stat_view_for(r@[1], "DEX"@, self.dexterity),
            stat_view_for(r@[2], "CON"@, self.constitution),
            stat_view_for(r@[3], "INT"@, self.intelligence),
            stat_view_for(r@[4], "WIS"@, self.wisdom),
            stat_view_for(r@[5], "CHA"@, self.charisma),
    {
        [
            StatView { name: "STR", value: self.strength, modifier: ability_mod(self.strength) },
            StatView { name: "DEX", value: self.dexterity, modifier: ability_mod(self.dexterity) },
            StatView {
                name: "CON",
                value: self.constitution,
                modifier: ability_mod(self.constitution),
            },
            StatView {
                name: "INT",
                value: self.intelligence,
                modifier: ability_mod(self.intelligence),
            },
            StatView { name: "WIS", value: self.wisdom, modifier: ability_mod(self.wisdom) },
            StatView { name: "CHA", value: self.charisma, modifier: ability_mod(self.charisma) },
        ]
    }
}

/// One saving throw as the dashboard shows it.
#[derive(Clone, Copy, Debug, PartialEq)]
pub struct SavingThrowView {
    pub name: &'static str,
    pub value: i8,
    pub proficient: bool,
}

/// `v` is the saving-throw entry for the ability called `name`.
pub open spec fn saving_view_for(
    v: SavingThrowView,
    name: Seq<char>,
    score: u8,
    proficient: bool,
    bonus: u8,
) -> bool {
    &&& v.name@ == name
    &&& v.value as int == spec_saving_throw_value(score as int, proficient, bonus as int)
    &&& v.proficient == proficient
}

/// Every saving-throw total of this sheet fits in the signed byte that
/// carries it on screen.
pub open spec fn saving_throws_fit(t: SavingThrows, s: Statistics) -> bool {
    &&& spec_saving_throw_value(s.strength as int, t.strength_proficent, s.proficiency_bonus as int)
        <= 127
    &&& spec_saving_throw_value(
        s.dexterity as int,
        t.dexterity_proficent,
        s.proficiency_bonus as int,
    ) <= 127
    &&& spec_saving_throw_value(
        s.constitution as int,
        t.constitution_proficent,
        s.proficiency_bonus as int,
    ) <= 127
    &&& spec_saving_throw_value(
        s.intelligence as int,
        t.intelligence_proficent,
        s.proficiency_bonus as int,
    ) <= 127
    &&& spec_saving_throw_value(s.wisdom as int, t.wisdom_proficent, s.proficiency_bonus as int)
        <= 127
    &&& spec_saving_throw_value(s.charisma as int, t.charisma_proficent, s.proficiency_bonus as int)
        <= 127
}

/// Tests whether one saving-throw total fits in the signed byte that
/// carries it on screen.
pub fn saving_throw_fits(score: u8, proficient: bool, prof_bonus: u8) -> (r: bool)
    ensures
        r == (spec_saving_throw_value(score as int, proficient, prof_bonus as int) <= 127),
{
    let m = ability_mod(score);
    if proficient {
        m as i16 + prof_bonus as i16 <= 127
    } else {
        true
    }
}

/// Tests whether every saving-throw total of the sheet fits in the
/// signed byte that carries it on screen — the condition that
/// `saving_throw_views` requires of its callers, decidable at load time.
pub fn saving_throws_fit_check(t: &SavingThrows, s: &Statistics) -> (r: bool)
    ensures
        r == saving_throws_fit(*t, *s),
{
    saving_throw_fits(s.strength, t.strength_proficent, s.proficiency_bonus) && saving_throw_fits(
        s.dexterity,
        t.dexterity_proficent,
        s.proficiency_bonus,
    ) && saving_throw_fits(s.constitution, t.constitution_proficent, s.proficiency_bonus)
        && saving_throw_fits(s.intelligence, t.intelligence_proficent, s.proficiency_bonus)
        && saving_throw_fits(s.wisdom, t.wisdom_proficent, s.proficiency_bonus)
        && saving_throw_fits(s.charisma, t.charisma_proficent, s.proficiency_bonus)
}

impl SavingThrows {
    /// The six saving-throw entries, in the same fixed ability order.
    pub fn saving_throw_views(&self, stats: &Statistics) -> (r: [SavingThrowView; 6])
        requires
            saving_throws_fit(*self, *stats),
        ensures
            saving_view_for(
                r@[0],
                "STR"@,
                stats.strength,
                self.strength_proficent,
                stats.proficiency_bonus,
            ),
            saving_view_for(
                r@[1],
                "DEX"@,
                stats.dexterity,
                self.dexterity_proficent,
                stats.proficiency_bonus,
            ),
            saving_view_for(
                r@[2],
                "CON"@,
                stats.constitution,
                self.constitution_proficent,
                stats.proficiency_bonus,
            ),
            saving_view_for(
                r@[3],
                "INT"@,
                stats.intelligence,
                self.intelligence_proficent,
                stats.proficiency_bonus,
            ),
            saving_view_for(
                r@[4],
                "WIS"@,
                stats.wisdom,
                self.wisdom_proficent,
                stats.proficiency_bonus,
            ),
            saving_view_for(
                r@[5],
                "CHA"@,
                stats.charisma,
                self.charisma_proficent,
                stats.proficiency_bonus,
            ),
    {
        [
            Self::saving_throw(
                "STR",
                stats.strength,
                self.strength_proficent,
                stats.proficiency_bonus,
            ),
            Self::saving_throw(
                "DEX",
                stats.dexterity,
                self.dexterity_proficent,
                stats.proficiency_bonus,
            ),
            Self::saving_throw(
                "CON",
                stats.constitution,
                self.constitution_proficent,
                stats.proficiency_bonus,
            ),
            Self::saving_throw(
                "INT",
                stats.intelligence,
                self.intelligence_proficent,
                stats.proficiency_bonus,
            ),
            Self::saving_throw(
                "WIS",
                stats.wisdom,
                self.wisdom_proficent,
                stats.proficiency_bonus,
            ),
            Self::saving_throw(
                "CHA",
                stats.charisma,
                self.charisma_proficent,
                stats.proficiency_bonus,
            ),
        ]
    }

    /// Builds one saving-throw entry.
    pub fn saving_throw(name: &'static str, score: u8, proficient: bool, prof_bonus: u8) -> (v:
        SavingThrowView)
        requires
            spec_saving_throw_value(score as int, proficient, prof_bonus as int) <= 127,
        ensures
            saving_view_for(v, name@, score, proficient, prof_bonus),
    {
        let m = ability_mod(score);
        let value: i8 = if proficient {
            (m as i16 + prof_bonus as i16) as i8
        } else {
            m
        };
        SavingThrowView { name, value, proficient }
    }
}

/// The three levels of skill proficiency a sheet can record.
#[derive(Clone, Copy, Debug, PartialEq, Eq, Structural)]
pub enum SkillProficiency {
    NotProficient,
    Proficient,
    Expertise,
}

/// The glyph a proficiency level renders as: an open circle for none, a
/// filled circle for proficient, a double circle for expertise.
pub open spec fn spec_symbol_str(sp: SkillProficiency) -> Seq<char> {
    match sp {
        SkillProficiency::NotProficient => "○"@,
        SkillProficiency::Proficient => "●"@,
        SkillProficiency::Expertise => "◎"@,
    }
}

impl SkillProficiency {
    /// The glyph for this proficiency level.
    pub fn symbol(self) -> (r: &'static str)
        ensures
            r@ == spec_symbol_str(self),
    {
        match self {
            SkillProficiency::NotProficient => "○",
            SkillProficiency::Proficient => "●",
            SkillProficiency::Expertise => "◎",
        }
    }
}

/// One skill as the dashboard shows it.
#[derive(Clone, Copy, Debug, PartialEq)]
pub struct SkillsView {
    pub name: &'static str,
    pub value: i8,
    pub sp: SkillProficiency,
}

/// Value of a skill's free-text score: its value as a signed-byte
/// literal, or 0 when the text (the empty string included) is not one.
pub open spec fn spec_skill_value(score: Seq<char>) -> int {
    if is_valid_i8_string(score) {
        spec_i8_value(score)
    } else {
        0
    }
}

/// The marker a skill's free-text proficiency field maps to. The match
/// is exact and case-sensitive: anything but the two literal strings
/// (capitalized spellings included) means no proficiency.
pub open spec fn spec_skill_marker(prof: Seq<char>) -> SkillProficiency {
    if prof == "proficient"@ {
        SkillProficiency::Proficient
    } else if prof == "expertise"@ {
        SkillProficiency::Expertise
    } else {
        SkillProficiency::NotProficient
    }
}

/// `v` is the display entry for the skill called `name` whose sheet
/// fields read `score` and `prof`.
pub open spec fn skill_view_for(
    v: SkillsView,
    name: Seq<char>,
    score: Seq<char>,
    prof: Seq<char>,
) -> bool {
    &&& v.name@ == name
    &&& v.value as int == spec_skill_value(score)
    &&& v.sp == spec_skill_marker(prof)
}

impl Skills {
    /// Builds one skill entry from its free-text fields.
    pub fn skills(name: &'static str, score: String, proficient_str: String) -> (v: SkillsView)
        ensures
            skill_view_for(v, name@, score@, proficient_str@),
    {
        let value: i8 = match parse_i8(score.as_str()) {
            Some(val) => val,
            None => 0,
        };
        let proficient_lit = String::from_str("proficient");
        let expertise_lit = String::from_str("expertise");
        let sp: SkillProficiency = if proficient_str == proficient_lit {
            SkillProficiency::Proficient
        } else if proficient_str == expertise_lit {
            SkillProficiency::Expertise
        } else {
            SkillProficiency::NotProficient
        };
        SkillsView { name, value, sp }
    }

    /// The eighteen skill entries in the fixed catalog order.
    pub fn skills_views(&self) -> (r: [SkillsView; 18])
        ensures
            skill_view_for(r@[0], "Acrobatics (Dex)"@, self.acrobatics@, self.acrobatics_skill@),
            skill_view_for(
                r@[1],
                "Animal_handling (Wis)"@,
                self.animal_handling@,
                self.animal_handling_skill@,
            ),
            skill_view_for(r@[2], "Arcana (Int)"@, self.arcana@, self.arcana_skill@),
            skill_view_for(r@[3], "Athletics (Str)"@, self.athletics@, self.athletics_skill@),
            skill_view_for(r@[4], "Deception (Dex)"@, self.deception@, self.deception_skill@),
            skill_view_for(r@[5], "History (Int)"@, self.history@, self.history_skill@),
            skill_view_for(r@[6], "Insight (Wis)"@, self.insight@, self.insight_skill@),
            skill_view_for(
                r@[7],
                "Intimidation (Cha)"@,
                self.intimidation@,
                self.intimidation_skill@,
            ),
            skill_view_for(
                r@[8],
                "Investigation (Int)"@,
                self.investigation@,
                self.investigation_skill@,
            ),
            skill_view_for(r@[9], "Medicine (Wis)"@, self.medicine@, self.medicine_skill@),
            skill_view_for(r@[10], "Nature (Int)"@, self.nature@, self.nature_skill@),
            skill_view_for(r@[11], "Perception (Wis)"@, self.perception@, self.perception_skill@),
            skill_view_for(
                r@[12],
                "Performance (Cha)"@,
                self.performance@,
                self.performance_skill@,
            ),
            skill_view_for(r@[13], "Persuasion (Cha)"@, self.persuasion@, self.persuasion_skill@),
            skill_view_for(r@[14], "Religion (Int)"@, self.religion@, self.religion_skill@),
            skill_view_for(
                r@[15],
                "Slight_of_hand (Dex)"@,
                self.slight_of_hand@,
                self.slight_of_hand_skill@,
            ),
            skill_view_for(r@[16], "Stealth (Dex)"@, self.stealth@, self.stealth_skill@),
            skill_view_for(r@[17], "Survival (Wis)"@, self.survival@, self.survival_skill@),
    {
        [
            Self::skills("Acrobatics (Dex)", self.acrobatics.clone(), self.acrobatics_skill.clone()),
            Self::skills(
                "Animal_handling (Wis)",
                self.animal_handling.clone(),
                self.animal_handling_skill.clone(),
            ),
            Self::skills("Arcana (Int)", self.arcana.clone(), self.arcana_skill.clone()),
            Self::skills("Athletics (Str)", self.athletics.clone(), self.athletics_skill.clone()),
            Self::skills("Deception (Dex)", self.deception.clone(), self.deception_skill.clone()),
            Self::skills("History (Int)", self.history.clone(), self.history_skill.clone()),
            Self::skills("Insight (Wis)", self.insight.clone(), self.insight_skill.clone()),
            Self::skills(
                "Intimidation (Cha)",
                self.intimidation.clone(),
                self.intimidation_skill.clone(),
            ),
            Self::skills(
                "Investigation (Int)",
                self.investigation.clone(),
                self.investigation_skill.clone(),
            ),
            Self::skills("Medicine (Wis)", self.medicine.clone(), self.medicine_skill.clone()),
            Self::skills("Nature (Int)", self.nature.clone(), self.nature_skill.clone()),
            Self::skills(
                "Perception (Wis)",
                self.perception.clone(),
                self.perception_skill.clone(),
            ),
            Self::skills(
                "Performance (Cha)",
                self.performance.clone(),
                self.performance_skill.clone(),
            ),
            Self::skills(
                "Persuasion (Cha)",
                self.persuasion.clone(),
                self.persuasion_skill.clone(),
            ),
            Self::skills("Religion (Int)", self.religion.clone(), self.religion_skill.clone()),
            Self::skills(
                "Slight_of_hand (Dex)",
                self.slight_of_hand.clone(),
                self.slight_of_hand_skill.clone(),
            ),
            Self::skills("Stealth (Dex)", self.stealth.clone(), self.stealth_skill.clone()),
            Self::skills("Survival (Wis)", self.survival.clone(), self.survival_skill.clone()),
        ]
    }
}

} // verus!
