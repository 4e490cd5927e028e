use char_sheet::geom::Rect;
use char_sheet::sheet::{
    CharSheet, Health, Information, ProficienciesAndLanguage, SavingThrows, Skills, Statistics,
};
use char_sheet::state::{App, CurrentScreen, CurrentlyEditing, HpButton, InputKey, KeyKind};

fn chars(s: &str) -> Vec<char> {
    s.chars().collect()
}

fn sample_sheet() -> CharSheet {
    CharSheet {
        information: Information {
            character_name: "Cromwell Windscream".to_string(),
            class: "Barbarian".to_string(),
            level: 5,
            background: "Outlander".to_string(),
            player_name: "Sam".to_string(),
            race: "Goliath".to_string(),
            alignment: "Chaotic Good".to_string(),
            experience: "6500".to_string(),
        },
        statistics: Statistics {
            strength: 18,
            dexterity: 14,
            constitution: 16,
            intelligence: 8,
            wisdom: 10,
            charisma: 12,
            inspiration: false,
            proficiency_bonus: 3,
            passive_wisdom_perception: 10,
        },
        saving_throws: SavingThrows {
            strength_proficent: true,
            dexterity_proficent: false,
            constitution_proficent: true,
            intelligence_proficent: false,
            wisdom_proficent: false,
            charisma_proficent: false,
        },
        skills: Skills {
            acrobatics: "2".to_string(),
            animal_handling: "0".to_string(),
            arcana: "-1".to_string(),
            athletics: "7".to_string(),
            deception: "1".to_string(),
            history: "-1".to_string(),
            insight: "0".to_string(),
            intimidation: "4".to_string(),
            investigation: "-1".to_string(),
            medicine: "0".to_string(),
            nature: "-1".to_string(),
            perception: "0".to_string(),
            performance: "1".to_string(),
            persuasion: "1".to_string(),
            religion: "-1".to_string(),
            slight_of_hand: "2".to_string(),
            stealth: "2".to_string(),
            survival: "3".to_string(),
            acrobatics_skill: "".to_string(),
            animal_handling_skill: "".to_string(),
            arcana_skill: "".to_string(),
            athletics_skill: "expertise".to_string(),
            deception_skill: "".to_string(),
            history_skill: "".to_string(),
            insight_skill: "".to_string(),
            intimidation_skill: "proficient".to_string(),
            investigation_skill: "".to_string(),
            medicine_skill: "".to_string(),
            nature_skill: "".to_string(),
            perception_skill: "".to_string(),
            performance_skill: "".to_string(),
            persuasion_skill: "".to_string(),
            religion_skill: "".to_string(),
            slight_of_hand_skill: "".to_string(),
            stealth_skill: "".to_string(),
            survival_skill: "".to_string(),
        },
        proficiencies_and_language: ProficienciesAndLanguage {
            languages_known: "Common, Giant".to_string(),
            armor_proficiency: "Light, Medium, Shields".to_string(),
            weapon_proficiency: "Simple, Martial".to_string(),
            tools_proficiency: "Herbalism kit".to_string(),
        },
        health: Health {
            armor_class: 15,
            initiative: "+2".to_string(),
            speed: 30,
            current_hp: 42,
            maximum_hp: 47,
            temporary_hp: 0,
            hit_dice_type: "d12".to_string(),
            total_hit_dice: 5,
            current_hit_dice: 5,
            unconcicious: false,
            death_save_saves: "0".to_string(),
            death_save_failes: "0".to_string(),
        },
    }
}

#[test]
fn new_app_starts_on_main() {
    let app = App::new(sample_sheet());
    assert_eq!(app.current_screen, CurrentScreen::Main);
    assert!(app.currently_editing.is_none());
    assert!(app.pairs.is_empty());
    assert!(app.key_input.is_empty());
    assert!(app.value_input.is_empty());
}

#[test]
fn quit_then_confirm_prints_edits() {
    let mut app = App::new(sample_sheet());
    let r = app.handle_event(KeyKind::Press, InputKey::Char('q'));
    assert_eq!(r, None);
    assert_eq!(app.current_screen, CurrentScreen::Exiting);
    let r = app.handle_event(KeyKind::Press, InputKey::Char('y'));
    assert_eq!(r, Some(true));
}

#[test]
fn quit_then_decline_skips_printing() {
    let mut app = App::new(sample_sheet());
    app.handle_event(KeyKind::Press, InputKey::Char('q'));
    let r = app.handle_event(KeyKind::Press, InputKey::Char('n'));
    assert_eq!(r, Some(false));
    let mut app2 = App::new(sample_sheet());
    app2.handle_event(KeyKind::Press, InputKey::Char('q'));
    let r2 = app2.handle_event(KeyKind::Press, InputKey::Char('q'));
    assert_eq!(r2, Some(false));
}

#[test]
fn release_events_are_ignored() {
    let mut app = App::new(sample_sheet());
    let r = app.handle_event(KeyKind::Release, InputKey::Char('q'));
    assert_eq!(r, None);
    assert_eq!(app.current_screen, CurrentScreen::Main);
}

#[test]
fn repeat_events_are_ignored() {
    let mut app = App::new(sample_sheet());
    app.handle_event(KeyKind::Repeat, InputKey::Char('q'));
    assert_eq!(app.current_screen, CurrentScreen::Main);
    app.handle_event(KeyKind::Press, InputKey::Char('e'));
    assert_eq!(app.current_screen, CurrentScreen::Editing);
    app.handle_event(KeyKind::Repeat, InputKey::Char('a'));
    assert!(app.key_input.is_empty());
    app.handle_event(KeyKind::Press, InputKey::Char('q'));
    let r = app.handle_event(KeyKind::Repeat, InputKey::Enter);
    assert_eq!(r, None);
}

#[test]
fn editing_flow_commits_pair() {
    let mut app = App::new(sample_sheet());
    app.handle_event(KeyKind::Press, InputKey::Char('e'));
    assert_eq!(app.current_screen, CurrentScreen::Editing);
    assert_eq!(app.currently_editing, Some(CurrentlyEditing::Key));
    for c in "note".chars() {
        app.handle_event(KeyKind::Press, InputKey::Char(c));
    }
    app.handle_event(KeyKind::Press, InputKey::Enter);
    assert_eq!(app.currently_editing, Some(CurrentlyEditing::Value));
    for c in "rage".chars() {
        app.handle_event(KeyKind::Press, InputKey::Char(c));
    }
    let r = app.handle_event(KeyKind::Press, InputKey::Enter);
    assert_eq!(r, None);
    assert_eq!(app.current_screen, CurrentScreen::Main);
    assert_eq!(app.currently_editing, None);
    assert!(app.key_input.is_empty());
    assert!(app.value_input.is_empty());
    assert_eq!(app.pairs, vec![(chars("note"), chars("rage"))]);
}

#[test]
fn committing_same_key_overwrites() {
    let mut app = App::new(sample_sheet());
    app.key_input = chars("note");
    app.value_input = chars("first");
    app.save_key_value();
    app.key_input = chars("note");
    app.value_input = chars("second");
    app.save_key_value();
    assert_eq!(app.pairs, vec![(chars("note"), chars("second"))]);
    assert_eq!(app.currently_editing, None);
}

#[test]
fn backspace_and_escape_and_tab() {
    let mut app = App::new(sample_sheet());
    app.handle_event(KeyKind::Press, InputKey::Char('e'));
    app.handle_event(KeyKind::Press, InputKey::Char('a'));
    app.handle_event(KeyKind::Press, InputKey::Char('b'));
    app.handle_event(KeyKind::Press, InputKey::Backspace);
    assert_eq!(app.key_input, chars("a"));
    app.handle_event(KeyKind::Press, InputKey::Tab);
    assert_eq!(app.currently_editing, Some(CurrentlyEditing::Value));
    app.handle_event(KeyKind::Press, InputKey::Char('x'));
    assert_eq!(app.value_input, chars("x"));
    app.handle_event(KeyKind::Press, InputKey::Tab);
    assert_eq!(app.currently_editing, Some(CurrentlyEditing::Key));
    assert_eq!(app.key_input, chars("a"));
    app.handle_event(KeyKind::Press, InputKey::Esc);
    assert_eq!(app.current_screen, CurrentScreen::Main);
    assert_eq!(app.currently_editing, None);
}

#[test]
fn backspace_on_empty_buffer_is_noop() {
    let mut app = App::new(sample_sheet());
    app.handle_event(KeyKind::Press, InputKey::Char('e'));
    app.handle_event(KeyKind::Press, InputKey::Backspace);
    assert!(app.key_input.is_empty());
}

#[test]
fn toggle_editing_cycles() {
    let mut app = App::new(sample_sheet());
    app.toggle_editing();
    assert_eq!(app.currently_editing, Some(CurrentlyEditing::Key));
    app.toggle_editing();
    assert_eq!(app.currently_editing, Some(CurrentlyEditing::Value));
    app.toggle_editing();
    assert_eq!(app.currently_editing, Some(CurrentlyEditing::Key));
}

#[test]
fn hp_keys_adjust_with_clamp() {
    let mut app = App::new(sample_sheet());
    app.handle_event(KeyKind::Press, InputKey::Char('-'));
    assert_eq!(app.char_sheet.health.current_hp, 41);
    app.handle_event(KeyKind::Press, InputKey::Char('+'));
    assert_eq!(app.char_sheet.health.current_hp, 42);
}

#[test]
fn hp_increase_idempotent_at_ceiling() {
    let mut sheet = sample_sheet();
    sheet.health.current_hp = 47;
    let mut h = sheet.health;
    h.hp_increase();
    assert_eq!(h.current_hp, 47);
    h.hp_increase();
    h.hp_increase();
    assert_eq!(h.current_hp, 47);
}

#[test]
fn hp_decrease_never_underflows() {
    let mut sheet = sample_sheet();
    sheet.health.current_hp = 0;
    let mut h = sheet.health;
    h.hp_decrease();
    assert_eq!(h.current_hp, 0);
    h.hp_decrease();
    assert_eq!(h.current_hp, 0);
}

#[test]
fn click_inside_minus_decreases_once_and_hovers() {
    let mut app = App::new(sample_sheet());
    app.set_hp_rects(
        Rect { x: 2, y: 20, width: 5, height: 3 },
        Rect { x: 10, y: 20, width: 5, height: 3 },
    );
    app.handle_mouse_up(3, 21);
    assert_eq!(app.char_sheet.health.current_hp, 41);
    assert_eq!(app.hovered_button, Some(HpButton::Minus));
    app.handle_mouse_up(50, 2);
    assert_eq!(app.char_sheet.health.current_hp, 41);
    assert_eq!(app.hovered_button, None);
}

#[test]
fn click_inside_plus_increases_and_hovers() {
    let mut app = App::new(sample_sheet());
    app.set_hp_rects(
        Rect { x: 2, y: 20, width: 5, height: 3 },
        Rect { x: 10, y: 20, width: 5, height: 3 },
    );
    app.handle_mouse_up(14, 22);
    assert_eq!(app.char_sheet.health.current_hp, 43);
    assert_eq!(app.hovered_button, Some(HpButton::Plus));
}

#[test]
fn click_before_any_render_changes_nothing() {
    let mut app = App::new(sample_sheet());
    app.handle_mouse_up(3, 21);
    assert_eq!(app.char_sheet.health.current_hp, 42);
    assert_eq!(app.hovered_button, None);
}

#[test]
fn info_text_lines() {
    let sheet = sample_sheet();
    let lines = sheet.information.get_info_text();
    assert_eq!(lines.len(), 8);
    assert_eq!(lines[0], "Character Name: Cromwell Windscream\n");
    assert_eq!(lines[1], "Class: Barbarian\n");
    assert_eq!(lines[2], "Level: 5\n");
    assert_eq!(lines[3], "Background: Outlander\n");
    assert_eq!(lines[4], "Player Name: Sam\n");
    assert_eq!(lines[5], "Race: Goliath\n");
    assert_eq!(lines[6], "Alignment: Chaotic Good\n");
    assert_eq!(lines[7], "Experience: 6500\n");
}

#[test]
fn hp_keys_clamp_at_bounds_via_events() {
    let mut app = App::new(sample_sheet());
    app.char_sheet.health.current_hp = 47;
    app.handle_event(KeyKind::Press, InputKey::Char('+'));
    app.handle_event(KeyKind::Press, InputKey::Char('+'));
    assert_eq!(app.char_sheet.health.current_hp, 47);
    app.char_sheet.health.current_hp = 0;
    app.handle_event(KeyKind::Press, InputKey::Char('-'));
    assert_eq!(app.char_sheet.health.current_hp, 0);
}

#[test]
fn committing_twice_overwrites_via_events() {
    let mut app = App::new(sample_sheet());
    for (value, expected) in [("one", "one"), ("two", "two")] {
        app.handle_event(KeyKind::Press, InputKey::Char('e'));
        app.handle_event(KeyKind::Press, InputKey::Char('k'));
        app.handle_event(KeyKind::Press, InputKey::Enter);
        for c in value.chars() {
            app.handle_event(KeyKind::Press, InputKey::Char(c));
        }
        app.handle_event(KeyKind::Press, InputKey::Enter);
        assert_eq!(app.pairs, vec![(chars("k"), chars(expected))]);
    }
}

#[test]
fn unrecognized_keys_are_noops() {
    let mut app = App::new(sample_sheet());
    app.handle_event(KeyKind::Press, InputKey::Char('x'));
    app.handle_event(KeyKind::Press, InputKey::Enter);
    app.handle_event(KeyKind::Press, InputKey::Other);
    assert_eq!(app.current_screen, CurrentScreen::Main);
    assert_eq!(app.currently_editing, None);
    assert!(app.pairs.is_empty());
    assert_eq!(app.char_sheet.health.current_hp, 42);
}

#[test]
fn start_edit_clears_stale_buffers() {
    let mut app = App::new(sample_sheet());
    app.handle_event(KeyKind::Press, InputKey::Char('e'));
    app.handle_event(KeyKind::Press, InputKey::Char('a'));
    app.handle_event(KeyKind::Press, InputKey::Enter);
    app.handle_event(KeyKind::Press, InputKey::Char('b'));
    app.handle_event(KeyKind::Press, InputKey::Esc);
    assert_eq!(app.key_input, chars("a"));
    assert_eq!(app.value_input, chars("b"));
    app.handle_event(KeyKind::Press, InputKey::Char('e'));
    assert!(app.key_input.is_empty());
    assert!(app.value_input.is_empty());
}
