use char_sheet::codec::{sheet_from_text, sheet_to_text};
use char_sheet::sheet::{
    CharSheet, Health, Information, ProficienciesAndLanguage, SavingThrows, Skills, Statistics,
};

fn sheet(name: &str, background: &str) -> CharSheet {
    CharSheet {
        information: Information {
            character_name: name.to_string(),
            class: "Barbarian".to_string(),
            level: 5,
            background: background.to_string(),
            player_name: "Sam".to_string(),
            race: "Goliath".to_string(),
            alignment: "Chaotic Good".to_string(),
            experience: "6500".to_string(),
        },
        statistics: Statistics {
            strength: 18,
            dexterity: 14,
            constitution: 16,
            intelligence: 8,
            wisdom: 10,
            charisma: 12,
            inspiration: true,
            proficiency_bonus: 3,
            passive_wisdom_perception: 10,
        },
        saving_throws: SavingThrows {
            strength_proficent: true,
            dexterity_proficent: false,
            constitution_proficent: true,
            intelligence_proficent: false,
            wisdom_proficent: false,
            charisma_proficent: false,
        },
        skills: Skills {
            acrobatics: "2".to_string(),
            animal_handling: "0".to_string(),
            arcana: "-1".to_string(),
            athletics: "7".to_string(),
            deception: "1".to_string(),
            history: "-1".to_string(),
            insight: "0".to_string(),
            intimidation: "4".to_string(),
            investigation: "-1".to_string(),
            medicine: "0".to_string(),
            nature: "-1".to_string(),
            perception: "0".to_string(),
            performance: "1".to_string(),
            persuasion: "1".to_string(),
            religion: "-1".to_string(),
            slight_of_hand: "2".to_string(),
            stealth: "2".to_string(),
            survival: "3".to_string(),
            acrobatics_skill: "".to_string(),
            animal_handling_skill: "".to_string(),
            arcana_skill: "".to_string(),
            athletics_skill: "expertise".to_string(),
            deception_skill: "".to_string(),
            history_skill: "".to_string(),
            insight_skill: "".to_string(),
            intimidation_skill: "proficient".to_string(),
            investigation_skill: "".to_string(),
            medicine_skill: "".to_string(),
            nature_skill: "".to_string(),
            perception_skill: "".to_string(),
            performance_skill: "".to_string(),
            persuasion_skill: "".to_string(),
            religion_skill: "".to_string(),
            slight_of_hand_skill: "".to_string(),
            stealth_skill: "".to_string(),
            survival_skill: "".to_string(),
        },
        proficiencies_and_language: ProficienciesAndLanguage {
            languages_known: "Common, Giant".to_string(),
            armor_proficiency: "Light, Medium, Shields".to_string(),
            weapon_proficiency: "Simple, Martial".to_string(),
            tools_proficiency: "Herbalism kit".to_string(),
        },
        health: Health {
            armor_class: 15,
            initiative: "+2".to_string(),
            speed: 30,
            current_hp: 42,
            maximum_hp: 47,
            temporary_hp: 0,
            hit_dice_type: "d12".to_string(),
            total_hit_dice: 5,
            current_hit_dice: 5,
            unconcicious: false,
            death_save_saves: "0".to_string(),
            death_save_failes: "0".to_string(),
        },
    }
}

fn text_of(s: &CharSheet) -> String {
    sheet_to_text(s).iter().collect()
}

#[test]
fn round_trip_reproduces_the_model() {
    let original = sheet("Cromwell Windscream", "Outlander");
    let text = sheet_to_text(&original);
    let reloaded = sheet_from_text(&text).expect("saved document must parse");
    assert_eq!(reloaded, original);
}

#[test]
fn round_trip_with_quotes_and_backslashes() {
    let original = sheet("Crom \"the Loud\" \\ Windscream", "a \\ b \" c");
    let text = sheet_to_text(&original);
    let reloaded = sheet_from_text(&text).expect("escaped document must parse");
    assert_eq!(reloaded, original);
}

#[test]
fn round_trip_with_control_characters() {
    let original = sheet("line one\nline two", "tab\there\u{1}and\rback");
    let text = sheet_to_text(&original);
    let reloaded = sheet_from_text(&text).expect("escaped document must parse");
    assert_eq!(reloaded, original);
}

#[test]
fn control_characters_are_escaped_to_valid_json() {
    let original = sheet("line one\nline two", "tab\there");
    let text: String = text_of(&original);
    assert!(text.contains("line one\\u000aline two"));
    let value: serde_json::Value = serde_json::from_str(&text).expect("must be valid JSON");
    assert_eq!(
        value["information"]["character_name"],
        serde_json::Value::String("line one\nline two".to_string())
    );
    assert_eq!(
        value["information"]["background"],
        serde_json::Value::String("tab\there".to_string())
    );
}

#[test]
fn saved_document_is_json_with_the_expected_fields() {
    let original = sheet("Cromwell \"Windscream\"", "Outlander");
    let text: String = text_of(&original);
    let value: serde_json::Value = serde_json::from_str(&text).expect("must be valid JSON");
    assert_eq!(
        value["information"]["character_name"],
        serde_json::Value::String("Cromwell \"Windscream\"".to_string())
    );
    assert_eq!(value["statistics"]["strength"], serde_json::Value::from(18u8));
    assert_eq!(value["statistics"]["inspiration"], serde_json::Value::Bool(true));
    assert_eq!(
        value["skills"]["athletics_skill"],
        serde_json::Value::String("expertise".to_string())
    );
    assert_eq!(value["health"]["maximum_hp"], serde_json::Value::from(47u8));
    assert_eq!(
        value["proficiencies_and_language"]["languages_known"],
        serde_json::Value::String("Common, Giant".to_string())
    );
}

#[test]
fn malformed_documents_are_rejected() {
    let good = text_of(&sheet("A", "B"));

    // truncated
    let cut: Vec<char> = good.chars().take(good.chars().count() - 1).collect();
    assert!(sheet_from_text(&cut).is_none());

    // trailing garbage
    let mut long: Vec<char> = good.chars().collect();
    long.push(' ');
    assert!(sheet_from_text(&long).is_none());

    // a renamed field
    let renamed = good.replace("\"strength\"", "\"strongth\"");
    let renamed: Vec<char> = renamed.chars().collect();
    assert!(sheet_from_text(&renamed).is_none());

    // a field of the wrong kind
    let wrong_kind = good.replace("\"level\": 5", "\"level\": \"5\"");
    let wrong_kind: Vec<char> = wrong_kind.chars().collect();
    assert!(sheet_from_text(&wrong_kind).is_none());

    // a number too large for its field
    let too_big = good.replace("\"speed\": 30", "\"speed\": 300");
    let too_big: Vec<char> = too_big.chars().collect();
    assert!(sheet_from_text(&too_big).is_none());

    // empty input
    let empty: Vec<char> = Vec::new();
    assert!(sheet_from_text(&empty).is_none());
}

#[test]
fn document_layout_is_stable() {
    let text = text_of(&sheet("A", "B"));
    assert!(text.starts_with("{\n  \"information\": {\n    \"character_name\": \"A\",\n"));
    assert!(text.ends_with("\"death_save_failes\": \"0\"\n  }\n}"));
    assert!(text.contains("    \"level\": 5,\n"));
    assert!(text.contains("    \"inspiration\": true,\n"));
    assert!(text.contains("  \"health\": {\n"));
}
