use char_sheet::derived::{SavingThrowView, SkillProficiency, SkillsView, StatView};
use char_sheet::geom::{Rect, centered_rect};
use char_sheet::numbers::{i8_signed_string, pad_right, parse_i8, u8_to_string};
use char_sheet::render::{saving_symbol, saving_throw_texts, skill_line, stat_line};

#[test]
fn parse_i8_accepts_signed_byte_literals() {
    assert_eq!(parse_i8("0"), Some(0));
    assert_eq!(parse_i8("3"), Some(3));
    assert_eq!(parse_i8("127"), Some(127));
    assert_eq!(parse_i8("-128"), Some(-128));
    assert_eq!(parse_i8("+5"), Some(5));
    assert_eq!(parse_i8("-0"), Some(0));
    assert_eq!(parse_i8("007"), Some(7));
    assert_eq!(parse_i8("000000000000042"), Some(42));
}

#[test]
fn parse_i8_rejects_everything_else() {
    for bad in [
        "", "+", "-", "128", "-129", "300", "12x", "x12", "1 2", " 1", "1 ", "++1", "+-1", "3.0",
    ] {
        assert_eq!(parse_i8(bad), None, "input {bad:?}");
    }
}

#[test]
fn decimal_rendering() {
    assert_eq!(u8_to_string(0), "0");
    assert_eq!(u8_to_string(7), "7");
    assert_eq!(u8_to_string(10), "10");
    assert_eq!(u8_to_string(100), "100");
    assert_eq!(u8_to_string(255), "255");
}

#[test]
fn signed_rendering() {
    assert_eq!(i8_signed_string(0), "+0");
    assert_eq!(i8_signed_string(2), "+2");
    assert_eq!(i8_signed_string(-1), "-1");
    assert_eq!(i8_signed_string(127), "+127");
    assert_eq!(i8_signed_string(-128), "-128");
}

#[test]
fn padding() {
    assert_eq!(pad_right("STR", 3), "STR");
    assert_eq!(pad_right("ab", 5), "ab   ");
    assert_eq!(pad_right("", 2), "  ");
    assert_eq!(pad_right("too long", 4), "too long");
}

#[test]
fn stat_line_text() {
    let v = StatView { name: "STR", value: 14, modifier: 2 };
    assert_eq!(stat_line(&v), "+2 (14)");
    let w = StatView { name: "INT", value: 8, modifier: -1 };
    assert_eq!(stat_line(&w), "-1 (8)");
}

#[test]
fn saving_throw_row_texts() {
    assert_eq!(saving_symbol(true), "●");
    assert_eq!(saving_symbol(false), "○");
    let v = SavingThrowView { name: "STR", value: 4, proficient: true };
    let (glyph, name, value) = saving_throw_texts(&v);
    assert_eq!(glyph, "● ");
    assert_eq!(name, "STR ");
    assert_eq!(value, "+4");
}

#[test]
fn skill_row_text() {
    let v = SkillsView { name: "Acrobatics (Dex)", value: 3, sp: SkillProficiency::Expertise };
    assert_eq!(skill_line(&v), "◎ Acrobatics (Dex) +3");
    let w = SkillsView { name: "Arcana (Int)", value: 0, sp: SkillProficiency::NotProficient };
    assert_eq!(skill_line(&w), "○ Arcana (Int)   +0");
}

#[test]
fn rect_hit_test_half_open() {
    let r = Rect { x: 10, y: 5, width: 4, height: 2 };
    assert!(r.contains(10, 5));
    assert!(r.contains(13, 6));
    assert!(!r.contains(14, 5));
    assert!(!r.contains(10, 7));
    assert!(!r.contains(9, 5));
    assert!(!r.contains(10, 4));
}

#[test]
fn centered_rect_splits_leftover_evenly() {
    let outer = Rect { x: 0, y: 0, width: 100, height: 40 };
    let inner = centered_rect(60, 25, outer);
    assert_eq!(inner, Rect { x: 20, y: 15, width: 60, height: 10 });
    let shifted = Rect { x: 10, y: 10, width: 50, height: 20 };
    let inner2 = centered_rect(50, 50, shifted);
    assert_eq!(inner2, Rect { x: 22, y: 15, width: 25, height: 10 });
}

#[test]
fn centered_rect_rounds_down() {
    let outer = Rect { x: 0, y: 0, width: 5, height: 3 };
    let inner = centered_rect(50, 50, outer);
    assert_eq!(inner, Rect { x: 1, y: 1, width: 2, height: 1 });
    let degenerate = centered_rect(0, 100, outer);
    assert_eq!(degenerate, Rect { x: 2, y: 0, width: 0, height: 3 });
}

#[test]
fn pad_right_exact_width_unchanged() {
    assert_eq!(pad_right("abcd", 4), "abcd");
}
