use char_sheet::derived::{SkillProficiency, ability_mod, saving_throws_fit_check};
use char_sheet::sheet::{SavingThrows, Skills, Statistics};

fn sample_statistics() -> Statistics {
    Statistics {
        strength: 14,
        dexterity: 12,
        constitution: 16,
        intelligence: 8,
        wisdom: 10,
        charisma: 13,
        inspiration: false,
        proficiency_bonus: 2,
        passive_wisdom_perception: 10,
    }
}

fn sample_skills() -> Skills {
    Skills {
        acrobatics: "3".to_string(),
        animal_handling: "".to_string(),
        arcana: "1".to_string(),
        athletics: "5".to_string(),
        deception: "-1".to_string(),
        history: "1".to_string(),
        insight: "0".to_string(),
        intimidation: "4".to_string(),
        investigation: "1".to_string(),
        medicine: "0".to_string(),
        nature: "1".to_string(),
        perception: "0".to_string(),
        performance: "2".to_string(),
        persuasion: "2".to_string(),
        religion: "1".to_string(),
        slight_of_hand: "3".to_string(),
        stealth: "3".to_string(),
        survival: "0".to_string(),
        acrobatics_skill: "expertise".to_string(),
        animal_handling_skill: "".to_string(),
        arcana_skill: "".to_string(),
        athletics_skill: "proficient".to_string(),
        deception_skill: "".to_string(),
        history_skill: "".to_string(),
        insight_skill: "".to_string(),
        intimidation_skill: "proficient".to_string(),
        investigation_skill: "".to_string(),
        medicine_skill: "".to_string(),
        nature_skill: "".to_string(),
        perception_skill: "".to_string(),
        performance_skill: "".to_string(),
        persuasion_skill: "".to_string(),
        religion_skill: "".to_string(),
        slight_of_hand_skill: "Proficient".to_string(),
        stealth_skill: "".to_string(),
        survival_skill: "".to_string(),
    }
}

#[test]
fn ability_modifier_truncates_toward_zero() {
    for s in 0u8..=30u8 {
        let expected = (s as i16 - 10) / 2;
        assert_eq!(ability_mod(s) as i16, expected, "score {s}");
    }
    assert_eq!(ability_mod(7), -1);
    assert_eq!(ability_mod(8), -1);
    assert_eq!(ability_mod(10), 0);
    assert_eq!(ability_mod(20), 5);
}

#[test]
fn ability_modifier_low_scores() {
    assert_eq!(ability_mod(0), -5);
    assert_eq!(ability_mod(1), -4);
    assert_eq!(ability_mod(9), 0);
    assert_eq!(ability_mod(11), 0);
    assert_eq!(ability_mod(30), 10);
}

#[test]
fn ability_scores_fixed_order() {
    let stats = sample_statistics();
    let views = stats.ability_scores();
    let names: Vec<&str> = views.iter().map(|v| v.name).collect();
    assert_eq!(names, ["STR", "DEX", "CON", "INT", "WIS", "CHA"]);
    assert_eq!(views[0].value, 14);
    assert_eq!(views[0].modifier, 2);
    assert_eq!(views[3].value, 8);
    assert_eq!(views[3].modifier, -1);
}

#[test]
fn saving_throw_adds_bonus_when_proficient() {
    let v = SavingThrows::saving_throw("STR", 14, true, 2);
    assert_eq!(v.value, 4);
    assert!(v.proficient);
    let w = SavingThrows::saving_throw("STR", 14, false, 2);
    assert_eq!(w.value, 2);
    assert!(!w.proficient);
}

#[test]
fn saving_throw_views_fixed_order() {
    let stats = sample_statistics();
    let throws = SavingThrows {
        strength_proficent: true,
        dexterity_proficent: false,
        constitution_proficent: true,
        intelligence_proficent: false,
        wisdom_proficent: false,
        charisma_proficent: false,
    };
    let views = throws.saving_throw_views(&stats);
    let names: Vec<&str> = views.iter().map(|v| v.name).collect();
    assert_eq!(names, ["STR", "DEX", "CON", "INT", "WIS", "CHA"]);
    assert_eq!(views[0].value, 4);
    assert_eq!(views[1].value, 1);
    assert_eq!(views[2].value, 5);
    assert_eq!(views[3].value, -1);
}

#[test]
fn skill_view_parses_score_and_marker() {
    let v = Skills::skills("Acrobatics (Dex)", "3".to_string(), "expertise".to_string());
    assert_eq!(v.name, "Acrobatics (Dex)");
    assert_eq!(v.value, 3);
    assert_eq!(v.sp, SkillProficiency::Expertise);
}

#[test]
fn skill_view_unparsable_score_is_zero() {
    for bad in ["", "abc", "12x", "3.5", " 3", "3 ", "300", "-200", "+"] {
        let v = Skills::skills("Arcana (Int)", bad.to_string(), "".to_string());
        assert_eq!(v.value, 0, "score text {bad:?}");
    }
}

#[test]
fn skill_marker_match_is_case_sensitive() {
    let v = Skills::skills("Stealth (Dex)", "2".to_string(), "Proficient".to_string());
    assert_eq!(v.sp, SkillProficiency::NotProficient);
    let w = Skills::skills("Stealth (Dex)", "2".to_string(), "proficient".to_string());
    assert_eq!(w.sp, SkillProficiency::Proficient);
    let x = Skills::skills("Stealth (Dex)", "2".to_string(), "Expertise".to_string());
    assert_eq!(x.sp, SkillProficiency::NotProficient);
    let y = Skills::skills("Stealth (Dex)", "2".to_string(), "proficient ".to_string());
    assert_eq!(y.sp, SkillProficiency::NotProficient);
}

#[test]
fn skills_views_fixed_catalog_order() {
    let skills = sample_skills();
    let views = skills.skills_views();
    let names: Vec<&str> = views.iter().map(|v| v.name).collect();
    assert_eq!(
        names,
        [
            "Acrobatics (Dex)",
            "Animal_handling (Wis)",
            "Arcana (Int)",
            "Athletics (Str)",
            "Deception (Dex)",
            "History (Int)",
            "Insight (Wis)",
            "Intimidation (Cha)",
            "Investigation (Int)",
            "Medicine (Wis)",
            "Nature (Int)",
            "Perception (Wis)",
            "Performance (Cha)",
            "Persuasion (Cha)",
            "Religion (Int)",
            "Slight_of_hand (Dex)",
            "Stealth (Dex)",
            "Survival (Wis)",
        ]
    );
    assert_eq!(views[0].value, 3);
    assert_eq!(views[0].sp, SkillProficiency::Expertise);
    assert_eq!(views[1].value, 0);
    assert_eq!(views[1].sp, SkillProficiency::NotProficient);
    assert_eq!(views[3].sp, SkillProficiency::Proficient);
    assert_eq!(views[4].value, -1);
    // the capitalized marker on sleight of hand must not count
    assert_eq!(views[15].sp, SkillProficiency::NotProficient);
}

#[test]
fn proficiency_symbols() {
    assert_eq!(SkillProficiency::NotProficient.symbol(), "○");
    assert_eq!(SkillProficiency::Proficient.symbol(), "●");
    assert_eq!(SkillProficiency::Expertise.symbol(), "◎");
}

#[test]
fn saving_throw_fit_check_matches_the_limit() {
    let stats = sample_statistics();
    let throws = SavingThrows {
        strength_proficent: true,
        dexterity_proficent: false,
        constitution_proficent: false,
        intelligence_proficent: false,
        wisdom_proficent: false,
        charisma_proficent: false,
    };
    assert!(saving_throws_fit_check(&throws, &stats));
    let mut big = stats.clone();
    big.proficiency_bonus = 130;
    assert!(!saving_throws_fit_check(&throws, &big));
    // an oversized bonus on an ability without proficiency still fits
    let none = SavingThrows {
        strength_proficent: false,
        dexterity_proficent: false,
        constitution_proficent: false,
        intelligence_proficent: false,
        wisdom_proficent: false,
        charisma_proficent: false,
    };
    assert!(saving_throws_fit_check(&none, &big));
}
