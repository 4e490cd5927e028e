//! The character-sheet aggregate: six flat records of named fields, loaded
//! whole at startup and written back whole at shutdown. The only rule the
//! library enforces on it is the hit-point clamp: the adjustment actions
//! keep current hit points in `[0, maximum]`, while a document that is
//! already out of range is accepted as it stands.

use vstd::prelude::*;
use vstd::string::{StrSliceExecFns, StringExecFns};
use crate::numbers::{spec_dec_str, u8_to_string};

verus! {

/// Identity block of the sheet.
#[derive(Debug, Clone, PartialEq)]
pub struct Information {
    pub character_name: String,
    pub class: String,
    pub level: u8,
    pub background: String,
    pub player_name: String,
    pub race: String,
    pub alignment: String,
    pub experience: String,
}

/// Raw ability scores and the flat bonuses that come with them.
/// Modifiers are not stored: they are derived at render time.
#[derive(Debug, Clone, PartialEq)]
pub struct Statistics {
    pub strength: u8,
    pub dexterity: u8,
    pub constitution: u8,
    pub intelligence: u8,
    pub wisdom: u8,
    pub charisma: u8,
    pub inspiration: bool,
    pub proficiency_bonus: u8,
    pub passive_wisdom_perception: u8,
}

/// One proficiency flag per ability, for saving throws.
#[derive(Debug, Clone, PartialEq)]
pub struct SavingThrows {
    pub strength_proficent: bool,
    pub dexterity_proficent: bool,
    pub constitution_proficent: bool,
    pub intelligence_proficent: bool,
    pub wisdom_proficent: bool,
    pub charisma_proficent: bool,
}

/// Eighteen skills, each a free-text score and a free-text proficiency
/// marker whose recognized values are exactly `proficient` and `expertise`.
#[derive(Debug, Clone, PartialEq)]
pub struct Skills {
    pub acrobatics: String,
    pub animal_handling: String,
    pub arcana: String,
    pub athletics: String,
    pub deception: String,
    pub history: String,
    pub insight: String,
    pub intimidation: String,
    pub investigation: String,
    pub medicine: String,
    pub nature: String,
    pub perception: String,
    pub performance: String,
    pub persuasion: String,
    pub religion: String,
    pub slight_of_hand: String,
    pub stealth: String,
    pub survival: String,
    pub acrobatics_skill: String,
    pub animal_handling_skill: String,
    pub arcana_skill: String,
    pub athletics_skill: String,
    pub deception_skill: String,
    pub history_skill: String,
    pub insight_skill: String,
    pub intimidation_skill: String,
    pub investigation_skill: String,
    pub medicine_skill: String,
    pub nature_skill: String,
    pub perception_skill: String,
    pub performance_skill: String,
    pub persuasion_skill: String,
    pub religion_skill: String,
    pub slight_of_hand_skill: String,
    pub stealth_skill: String,
    pub survival_skill: String,
}

/// Free-text proficiency and language notes.
#[derive(Debug, Clone, PartialEq)]
pub struct ProficienciesAndLanguage {
    pub languages_known: String,
    pub armor_proficiency: String,
    pub weapon_proficiency: String,
    pub tools_proficiency: String,
}

/// Health track: armor, speed, the hit-point pools and hit dice.
#[derive(Debug, Clone, PartialEq)]
pub struct Health {
    pub armor_class: u8,
    pub initiative: String,
    pub speed: u8,
    pub current_hp: u8,
    pub maximum_hp: u8,
    pub temporary_hp: u8,
    pub hit_dice_type: String,
    pub total_hit_dice: u8,
    pub current_hit_dice: u8,
    pub unconcicious: bool,
    pub death_save_saves: String,
    pub death_save_failes: String,
}

/// The root aggregate, owned by the running program for its lifetime.
#[derive(Debug, Clone, PartialEq)]
pub struct CharSheet {
    pub information: Information,
    pub statistics: Statistics,
    pub saving_throws: SavingThrows,
    pub skills: Skills,
    pub proficiencies_and_language: ProficienciesAndLanguage,
    pub health: Health,
}

/// Abstract value of an [`Information`] record: its text as sequences.
#[verifier::ext_equal]
pub struct InformationV {
    pub character_name: Seq<char>,
    pub class: Seq<char>,
    pub level: u8,
    pub background: Seq<char>,
    pub player_name: Seq<char>,
    pub race: Seq<char>,
    pub alignment: Seq<char>,
    pub experience: Seq<char>,
}

impl View for Information {
    type V = InformationV;

    open spec fn view(&self) -> InformationV {
        InformationV {
            character_name: self.character_name@,
            class: self.class@,
            level: self.level,
            background: self.background@,
            player_name: self.player_name@,
            race: self.race@,
            alignment: self.alignment@,
            experience: self.experience@,
        }
    }
}

/// Abstract value of a [`Skills`] record: the eighteen score texts and
/// the eighteen proficiency texts, in the order of the catalog.
#[verifier::ext_equal]
pub struct SkillsV {
    pub scores: Seq<Seq<char>>,
    pub markers: Seq<Seq<char>>,
}

impl View for Skills {
    type V = SkillsV;

    open spec fn view(&self) -> SkillsV {
        SkillsV {
            scores: seq![
                self.acrobatics@,
                self.animal_handling@,
                self.arcana@,
                self.athletics@,
                self.deception@,
                self.history@,
                self.insight@,
                self.intimidation@,
                self.investigation@,
                self.medicine@,
                self.nature@,
                self.perception@,
                self.performance@,
                self.persuasion@,
                self.religion@,
                self.slight_of_hand@,
                self.stealth@,
                self.survival@,
            ],
            markers: seq![
                self.acrobatics_skill@,
                self.animal_handling_skill@,
                self.arcana_skill@,
                self.athletics_skill@,
                self.deception_skill@,
                self.history_skill@,
                self.insight_skill@,
                self.intimidation_skill@,
                self.investigation_skill@,
                self.medicine_skill@,
                self.nature_skill@,
                self.perception_skill@,
                self.performance_skill@,
                self.persuasion_skill@,
                self.religion_skill@,
                self.slight_of_hand_skill@,
                self.stealth_skill@,
                self.survival_skill@,
            ],
        }
    }
}

/// Abstract value of a [`ProficienciesAndLanguage`] record.
#[verifier::ext_equal]
pub struct ProficienciesAndLanguageV {
    pub languages_known: Seq<char>,
    pub armor_proficiency: Seq<char>,
    pub weapon_proficiency: Seq<char>,
    pub tools_proficiency: Seq<char>,
}

impl View for ProficienciesAndLanguage {
    type V = ProficienciesAndLanguageV;

    open spec fn view(&self) -> ProficienciesAndLanguageV {
        ProficienciesAndLanguageV {
            languages_known: self.languages_known@,
            armor_proficiency: self.armor_proficiency@,
            weapon_proficiency: self.weapon_proficiency@,
            tools_proficiency: self.tools_proficiency@,
        }
    }
}

/// Abstract value of a [`Health`] record.
#[verifier::ext_equal]
pub struct HealthV {
    pub armor_class: u8,
    pub initiative: Seq<char>,
    pub speed: u8,
    pub current_hp: u8,
    pub maximum_hp: u8,
    pub temporary_hp: u8,
    pub hit_dice_type: Seq<char>,
    pub total_hit_dice: u8,
    pub current_hit_dice: u8,
    pub unconcicious: bool,
    pub death_save_saves: Seq<char>,
    pub death_save_failes: Seq<char>,
}

impl View for Health {
    type V = HealthV;

    open spec fn view(&self) -> HealthV {
        HealthV {
            armor_class: self.armor_class,
            initiative: self.initiative@,
            speed: self.speed,
            current_hp: self.current_hp,
            maximum_hp: self.maximum_hp,
            temporary_hp: self.temporary_hp,
            hit_dice_type: self.hit_dice_type@,
            total_hit_dice: self.total_hit_dice,
            current_hit_dice: self.current_hit_dice,
            unconcicious: self.unconcicious,
            death_save_saves: self.death_save_saves@,
            death_save_failes: self.death_save_failes@,
        }
    }
}

/// Abstract value of the whole sheet. [`Statistics`] and [`SavingThrows`]
/// hold plain scalars only, so they stand for themselves.
#[verifier::ext_equal]
pub struct CharSheetV {
    pub information: InformationV,
    pub statistics: Statistics,
    pub saving_throws: SavingThrows,
    pub skills: SkillsV,
    pub proficiencies_and_language: ProficienciesAndLanguageV,
    pub health: HealthV,
}

impl View for CharSheet {
    type V = CharSheetV;

    open spec fn view(&self) -> CharSheetV {
        CharSheetV {
            information: self.information@,
            statistics: self.statistics,
            saving_throws: self.saving_throws,
            skills: self.skills@,
            proficiencies_and_language: self.proficiencies_and_language@,
            health: self.health@,
        }
    }
}

/// The health track after one hit-point increase: one point up, clamped
/// at the maximum; at or above the maximum nothing changes.
pub open spec fn spec_hp_increase(h: Health) -> Health {
    if h.current_hp < h.maximum_hp {
        Health { current_hp: (h.current_hp + 1) as u8, ..h }
    } else {
        h
    }
}

/// The health track after one hit-point decrease: one point down,
/// clamped at zero; at zero nothing changes.
pub open spec fn spec_hp_decrease(h: Health) -> Health {
    if h.current_hp > 0 {
        Health { current_hp: (h.current_hp - 1) as u8, ..h }
    } else {
        h
    }
}

impl Health {
    /// One step of the plus control: gain a hit point unless already at
    /// (or beyond) the maximum.
    pub fn hp_increase(&mut self)
        ensures
            *final(self) == spec_hp_increase(*old(self)),
    {
        if self.current_hp < self.maximum_hp {
            self.current_hp = self.current_hp + 1;
        }
    }

    /// One step of the minus control: lose a hit point unless already at
    /// zero.
    pub fn hp_decrease(&mut self)
        ensures
            *final(self) == spec_hp_decrease(*old(self)),
    {
        if self.current_hp > 0 {
            self.current_hp = self.current_hp - 1;
        }
    }
}

/// Once current hit points sit at the maximum, the increase action is a
/// fixed point: applying it any number of times changes nothing.
pub proof fn lemma_hp_increase_fixed_at_max(h: Health)
    requires
        h.current_hp == h.maximum_hp,
    ensures
        spec_hp_increase(h) == h,
        spec_hp_increase(spec_hp_increase(h)) == h,
{
}

/// The decrease action never underflows: at zero current hit points it is
/// a fixed point, so current hit points stay at zero.
pub proof fn lemma_hp_decrease_no_underflow(h: Health)
    requires
        h.current_hp == 0,
    ensures
        spec_hp_decrease(h) == h,
        spec_hp_decrease(h).current_hp == 0,
{
}

impl Information {
    /// The eight lines of the identity panel, each `Label: value` with a
    /// trailing newline, in the fixed order of the block.
    pub fn get_info_text(&self) -> (lines: Vec<String>)
        ensures
            lines@.len() == 8,
            lines@[0]@ == "Character Name: "@ + self.character_name@ + "\n"@,
            lines@[1]@ == "Class: "@ + self.class@ + "\n"@,
            lines@[2]@ == "Level: "@ + spec_dec_str(self.level as nat) + "\n"@,
            lines@[3]@ == "Background: "@ + self.background@ + "\n"@,
            lines@[4]@ == "Player Name: "@ + self.player_name@ + "\n"@,
            lines@[5]@ == "Race: "@ + self.race@ + "\n"@,
            lines@[6]@ == "Alignment: "@ + self.alignment@ + "\n"@,
            lines@[7]@ == "Experience: "@ + self.experience@ + "\n"@,
    {
        let mut lines: Vec<String> = Vec::new();
        let mut line = String::from_str("Character Name: ");
        line.append(self.character_name.as_str());
        line.append("\n");
        lines.push(line);
        let mut line = String::from_str("Class: ");
        line.append(self.class.as_str());
        line.append("\n");
        lines.push(line);
        let mut line = String::from_str("Level: ");
        let level = u8_to_string(self.level);
        line.append(level.as_str());
        line.append("\n");
        lines.push(line);
        let mut line = String::from_str("Background: ");
        line.append(self.background.as_str());
        line.append("\n");
        lines.push(line);
        let mut line = String::from_str("Player Name: ");
        line.append(self.player_name.as_str());
        line.append("\n");
        lines.push(line);
        let mut line = String::from_str("Race: ");
        line.append(self.race.as_str());
        line.append("\n");
        lines.push(line);
        let mut line = String::from_str("Alignment: ");
        line.append(self.alignment.as_str());
        line.append("\n");
        lines.push(line);
        let mut line = String::from_str("Experience: ");
        line.append(self.experience.as_str());
        line.append("\n");
        lines.push(line);
        lines
    }
}

} // verus!
