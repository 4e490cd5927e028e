//! The interaction state machine: which screen is active, which half of a
//! key/value pair is being edited, the free-form pairs the user has
//! committed, and the hover state and last-rendered rectangles of the two
//! hit-point controls. Key and mouse events come in as plain values; the
//! machine's transitions are stated over an abstract model of the whole
//! application state.

use vstd::prelude::*;
use crate::geom::Rect;
use crate::sheet::{CharSheet, Health, spec_hp_decrease, spec_hp_increase};

verus! {

/// The screen the user is looking at.
#[derive(Clone, Copy, Debug, PartialEq, Eq, Structural)]
pub enum CurrentScreen {
    Main,
    Editing,
    Exiting,
}

/// Which half of the key/value pair holds the focus while editing.
#[derive(Clone, Copy, Debug, PartialEq, Eq, Structural)]
pub enum CurrentlyEditing {
    Key,
    Value,
}

/// A sheet field an editor could focus on directly.
#[derive(Clone, Copy, Debug, PartialEq, Eq, Structural)]
pub enum CurrEditInformation {
    CharacterName,
    Class,
    Level,
    Background,
    PlayerName,
    Race,
    Alignment,
    Experience,
    Value,
}

/// The two hit-point adjustment controls.
#[derive(Clone, Copy, Debug, PartialEq, Eq, Structural)]
pub enum HpButton {
    Minus,
    Plus,
}

/// How a key event was delivered; only presses act, repeats and
/// releases are ignored.
#[derive(Clone, Copy, Debug, PartialEq, Eq, Structural)]
pub enum KeyKind {
    Press,
    Repeat,
    Release,
}

/// A key event, already reduced to the keys the machine distinguishes.
#[derive(Clone, Copy, Debug, PartialEq, Eq, Structural)]
pub enum InputKey {
    Enter,
    Backspace,
    Esc,
    Tab,
    Char(char),
    Other,
}

/// The committed pairs as a mapping from key text to value text; a later
/// commit of the same key overwrites the earlier value.
pub open spec fn pairs_map(s: Seq<(Vec<char>, Vec<char>)>) -> Map<Seq<char>, Seq<char>>
    decreases s.len(),
{
    if s.len() == 0 {
        Map::empty()
    } else {
        pairs_map(s.drop_last()).insert(s.last().0@, s.last().1@)
    }
}

/// No two stored pairs share a key.
pub open spec fn distinct_keys(s: Seq<(Vec<char>, Vec<char>)>) -> bool {
    forall|i: int, j: int| 0 <= i < j < s.len() ==> (#[trigger] s[i]).0@ != (#[trigger] s[j]).0@
}

proof fn lemma_pairs_map_update(s: Seq<(Vec<char>, Vec<char>)>, i: int, k: Vec<char>, v: Vec<char>)
    requires
        distinct_keys(s),
        0 <= i < s.len(),
        k@ == s[i].0@,
    ensures
        pairs_map(s.update(i, (k, v))) == pairs_map(s).insert(k@, v@),
    decreases s.len(),
{
    let t = s.update(i, (k, v));
    if i == s.len() - 1 {
        assert(t.drop_last() =~= s.drop_last());
        assert(pairs_map(t) =~= pairs_map(s).insert(k@, v@));
    } else {
        assert(t.drop_last() =~= s.drop_last().update(i, (k, v)));
        assert(distinct_keys(s.drop_last()));
        lemma_pairs_map_update(s.drop_last(), i, k, v);
        assert(s[i].0@ != s.last().0@);
        assert(t.last() == s.last());
        assert(pairs_map(t) =~= pairs_map(s).insert(k@, v@));
    }
}

/// The abstract state of the application: everything the interaction
/// machine reads or writes, with text as character sequences and the
/// committed pairs as a map.
#[verifier::ext_equal]
pub struct AppModel {
    pub screen: CurrentScreen,
    pub editing: Option<CurrentlyEditing>,
    pub key_input: Seq<char>,
    pub value_input: Seq<char>,
    pub pairs: Map<Seq<char>, Seq<char>>,
    pub health: Health,
    pub minus_button: Option<Rect>,
    pub plus_button: Option<Rect>,
    pub hovered: Option<HpButton>,
}

/// The running application: the loaded sheet, the edit buffers, the
/// committed pairs, and the interaction state.
pub struct App {
    pub key_input: Vec<char>,
    pub value_input: Vec<char>,
    pub pairs: Vec<(Vec<char>, Vec<char>)>,
    pub current_screen: CurrentScreen,
    pub currently_editing: Option<CurrentlyEditing>,
    pub char_sheet: CharSheet,
    pub minus_button: Option<Rect>,
    pub plus_button: Option<Rect>,
    pub hovered_button: Option<HpButton>,
}

impl View for App {
    type V = AppModel;

    open spec fn view(&self) -> AppModel {
        AppModel {
            screen: self.current_screen,
            editing: self.currently_editing,
            key_input: self.key_input@,
            value_input: self.value_input@,
            pairs: pairs_map(self.pairs@),
            health: self.char_sheet.health,
            minus_button: self.minus_button,
            plus_button: self.plus_button,
            hovered: self.hovered_button,
        }
    }
}

/// The focus after a toggle: no focus starts at the key, and the two
/// halves alternate from there.
pub open spec fn spec_toggled(e: Option<CurrentlyEditing>) -> Option<CurrentlyEditing> {
    match e {
        Some(CurrentlyEditing::Key) => Some(CurrentlyEditing::Value),
        Some(CurrentlyEditing::Value) => Some(CurrentlyEditing::Key),
        None => Some(CurrentlyEditing::Key),
    }
}

/// The control rectangle `r` exists and contains the point `(x, y)`.
pub open spec fn spec_hit(r: Option<Rect>, x: u16, y: u16) -> bool {
    match r {
        Some(rect) => rect.spec_contains(x, y),
        None => false,
    }
}

/// The state after one key event. Only presses act: repeats and
/// releases change nothing anywhere. On the main screen `e` opens the
/// editor with both input buffers cleared, `q` asks to exit, and
/// `+`/`-` adjust hit points. While exiting nothing changes (the answer
/// only picks the exit path). While editing, presses type into the
/// focused buffer, move focus, commit, or abandon.
pub open spec fn spec_step(m: AppModel, kind: KeyKind, key: InputKey) -> AppModel {
    if kind != KeyKind::Press {
        m
    } else {
        match m.screen {
            CurrentScreen::Main => match key {
                InputKey::Char(c) => if c == 'e' {
                    AppModel {
                        screen: CurrentScreen::Editing,
                        editing: Some(CurrentlyEditing::Key),
                        key_input: Seq::empty(),
                        value_input: Seq::empty(),
                        ..m
                    }
                } else if c == 'q' {
                    AppModel { screen: CurrentScreen::Exiting, ..m }
                } else if c == '+' {
                    AppModel { health: spec_hp_increase(m.health), ..m }
                } else if c == '-' {
                    AppModel { health: spec_hp_decrease(m.health), ..m }
                } else {
                    m
                },
                _ => m,
            },
            CurrentScreen::Exiting => m,
            CurrentScreen::Editing => match key {
                InputKey::Enter => match m.editing {
                    Some(CurrentlyEditing::Key) => AppModel {
                        editing: Some(CurrentlyEditing::Value),
                        ..m
                    },
                    Some(CurrentlyEditing::Value) => AppModel {
                        screen: CurrentScreen::Main,
                        editing: None,
                        key_input: Seq::empty(),
                        value_input: Seq::empty(),
                        pairs: m.pairs.insert(m.key_input, m.value_input),
                        ..m
                    },
                    None => m,
                },
                InputKey::Backspace => match m.editing {
                    Some(CurrentlyEditing::Key) => AppModel {
                        key_input: if m.key_input.len() > 0 {
                            m.key_input.drop_last()
                        } else {
                            m.key_input
                        },
                        ..m
                    },
                    Some(CurrentlyEditing::Value) => AppModel {
                        value_input: if m.value_input.len() > 0 {
                            m.value_input.drop_last()
                        } else {
                            m.value_input
                        },
                        ..m
                    },
                    None => m,
                },
                InputKey::Esc => AppModel {
                    screen: CurrentScreen::Main,
                    editing: None,
                    ..m
                },
                InputKey::Tab => AppModel { editing: spec_toggled(m.editing), ..m },
                InputKey::Char(c) => match m.editing {
                    Some(CurrentlyEditing::Key) => AppModel {
                        key_input: m.key_input.push(c),
                        ..m
                    },
                    Some(CurrentlyEditing::Value) => AppModel {
                        value_input: m.value_input.push(c),
                        ..m
                    },
                    None => m,
                },
                _ => m,
            },
        }
    }
}

/// What one key event asks of the surrounding loop: `None` keeps going;
/// `Some(print)` terminates it, saying whether the committed pairs should
/// be printed. Only the exiting screen ever terminates: `y` confirms the
/// printout, `n` and `q` decline it. Only presses are answered.
pub open spec fn spec_signal(m: AppModel, kind: KeyKind, key: InputKey) -> Option<bool> {
    if kind != KeyKind::Press {
        None
    } else {
        match m.screen {
            CurrentScreen::Exiting => match key {
                InputKey::Char(c) => if c == 'y' {
                    Some(true)
                } else if c == 'n' || c == 'q' {
                    Some(false)
                } else {
                    None
                },
                _ => None,
            },
            _ => None,
        }
    }
}

/// The state after one left-button release at `(x, y)`: inside the minus
/// control it takes one hit point and marks that control hovered, inside
/// the plus control it gives one and marks that one; anywhere else it
/// clears the hover and changes nothing besides.
pub open spec fn spec_mouse_step(m: AppModel, x: u16, y: u16) -> AppModel {
    if spec_hit(m.minus_button, x, y) {
        AppModel { health: spec_hp_decrease(m.health), hovered: Some(HpButton::Minus), ..m }
    } else if spec_hit(m.plus_button, x, y) {
        AppModel { health: spec_hp_increase(m.health), hovered: Some(HpButton::Plus), ..m }
    } else {
        AppModel { hovered: None, ..m }
    }
}

/// Character-wise equality of two text buffers.
fn chars_eq(a: &Vec<char>, b: &Vec<char>) -> (r: bool)
    ensures
        r == (a@ == b@),
{
    if a.len() != b.len() {
        return false;
    }
    let mut i: usize = 0;
    while i < a.len()
        invariant
            a@.len() == b@.len(),
            i <= a@.len(),
            forall|j: int| 0 <= j < i ==> a@[j] == b@[j],
        decreases a@.len() - i,
    {
        if a[i] != b[i] {
            return false;
        }
        i = i + 1;
    }
    proof {
        assert(a@ =~= b@);
    }
    true
}

/// The index of the pair stored under `key`, if one is.
fn find_key(pairs: &Vec<(Vec<char>, Vec<char>)>, key: &Vec<char>) -> (r: Option<usize>)
    ensures
        match r {
            Some(i) => i < pairs@.len() && pairs@[i as int].0@ == key@,
            None => forall|j: int| 0 <= j < pairs@.len() ==> pairs@[j].0@ != key@,
        },
{
    let mut i: usize = 0;
    while i < pairs.len()
        invariant
            i <= pairs@.len(),
            forall|j: int| 0 <= j < i ==> pairs@[j].0@ != key@,
        decreases pairs@.len() - i,
    {
        if chars_eq(&pairs[i].0, key) {
            return Some(i);
        }
        i = i + 1;
    }
    None
}

impl App {
    /// The stored pairs carry no duplicate key, so their map view loses
    /// nothing.
    pub open spec fn wf(self) -> bool {
        distinct_keys(self.pairs@)
    }

    /// A fresh application around a loaded sheet: main screen, nothing
    /// being edited, no committed pairs, no rendered controls yet.
    pub fn new(char_sheet: CharSheet) -> (app: App)
        ensures
            app.wf(),
            app.current_screen == CurrentScreen::Main,
            app.currently_editing is None,
            app.key_input@ == Seq::<char>::empty(),
            app.value_input@ == Seq::<char>::empty(),
            app@.pairs == Map::<Seq<char>, Seq<char>>::empty(),
            app.char_sheet == char_sheet,
            app.minus_button is None,
            app.plus_button is None,
            app.hovered_button is None,
    {
        App {
            key_input: Vec::new(),
            value_input: Vec::new(),
            pairs: Vec::new(),
            current_screen: CurrentScreen::Main,
            currently_editing: None,
            char_sheet,
            minus_button: None,
            plus_button: None,
            hovered_button: None,
        }
    }

    /// Commits the two edit buffers as a pair — overwriting any pair
    /// already stored under that key — then clears both buffers and drops
    /// the focus.
    pub fn save_key_value(&mut self)
        requires
            old(self).wf(),
        ensures
            final(self).wf(),
            final(self)@.pairs == old(self)@.pairs.insert(
                old(self).key_input@,
                old(self).value_input@,
            ),
            final(self).key_input@ == Seq::<char>::empty(),
            final(self).value_input@ == Seq::<char>::empty(),
            final(self).currently_editing is None,
            final(self).current_screen == old(self).current_screen,
            final(self).char_sheet == old(self).char_sheet,
            final(self).minus_button == old(self).minus_button,
            final(self).plus_button == old(self).plus_button,
            final(self).hovered_button == old(self).hovered_button,
    {
        let mut key: Vec<char> = Vec::new();
        let mut value: Vec<char> = Vec::new();
        core::mem::swap(&mut self.key_input, &mut key);
        core::mem::swap(&mut self.value_input, &mut value);
        match find_key(&self.pairs, &key) {
            Some(i) => {
                proof {
                    lemma_pairs_map_update(self.pairs@, i as int, key, value);
                }
                self.pairs.set(i, (key, value));
            },
            None => {
                let ghost before = self.pairs@;
                self.pairs.push((key, value));
                proof {
                    assert(self.pairs@.drop_last() =~= before);
                }
            },
        }
        self.currently_editing = None;
    }

    /// Moves the editing focus: none yet focuses the key, and Tab then
    /// alternates between key and value without touching the buffers.
    pub fn toggle_editing(&mut self)
        ensures
            *final(self) == (App { currently_editing: spec_toggled(old(self).currently_editing), ..*old(self) }),
    {
        if let Some(edit_mode) = self.currently_editing {
            match edit_mode {
                CurrentlyEditing::Key => self.currently_editing = Some(CurrentlyEditing::Value),
                CurrentlyEditing::Value => self.currently_editing = Some(CurrentlyEditing::Key),
            };
        } else {
            self.currently_editing = Some(CurrentlyEditing::Key);
        }
    }

    /// Records where the render pass last drew the two hit-point
    /// controls, so the next mouse event is tested against up-to-date
    /// coordinates.
    pub fn set_hp_rects(&mut self, minus: Rect, plus: Rect)
        ensures
            *final(self) == (App {
                minus_button: Some(minus),
                plus_button: Some(plus),
                ..*old(self)
            }),
    {
        self.minus_button = Some(minus);
        self.plus_button = Some(plus);
    }

    /// Runs one key event through the machine. The new state is
    /// `spec_step` of the old; the returned signal is `spec_signal`, and
    /// nothing of the sheet outside the health track is touched.
    pub fn handle_event(&mut self, kind: KeyKind, key: InputKey) -> (r: Option<bool>)
        requires
            old(self).wf(),
        ensures
            final(self).wf(),
            final(self)@ == spec_step(old(self)@, kind, key),
            r == spec_signal(old(self)@, kind, key),
            final(self).char_sheet == (CharSheet {
                health: final(self).char_sheet.health,
                ..old(self).char_sheet
            }),
    {
        if kind != KeyKind::Press {
            return None;
        }
        match self.current_screen {
            CurrentScreen::Main => {
                match key {
                    InputKey::Char(c) => {
                        if c == 'e' {
                            self.current_screen = CurrentScreen::Editing;
                            self.currently_editing = Some(CurrentlyEditing::Key);
                            self.key_input = Vec::new();
                            self.value_input = Vec::new();
                        } else if c == 'q' {
                            self.current_screen = CurrentScreen::Exiting;
                        } else if c == '+' {
                            self.char_sheet.health.hp_increase();
                        } else if c == '-' {
                            self.char_sheet.health.hp_decrease();
                        }
                    },
                    _ => {},
                }
                None
            },
            CurrentScreen::Exiting => {
                match key {
                    InputKey::Char(c) => {
                        if c == 'y' {
                            Some(true)
                        } else if c == 'n' || c == 'q' {
                            Some(false)
                        } else {
                            None
                        }
                    },
                    _ => None,
                }
            },
            CurrentScreen::Editing => {
                match key {
                    InputKey::Enter => {
                        match self.currently_editing {
                            Some(CurrentlyEditing::Key) => {
                                self.currently_editing = Some(CurrentlyEditing::Value);
                            },
                            Some(CurrentlyEditing::Value) => {
                                self.save_key_value();
                                self.current_screen = CurrentScreen::Main;
                            },
                            None => {},
                        }
                    },
                    InputKey::Backspace => {
                        match self.currently_editing {
                            Some(CurrentlyEditing::Key) => {
                                if self.key_input.len() > 0 {
                                    self.key_input.pop();
                                }
                            },
                            Some(CurrentlyEditing::Value) => {
                                if self.value_input.len() > 0 {
                                    self.value_input.pop();
                                }
                            },
                            None => {},
                        }
                    },
                    InputKey::Esc => {
                        self.current_screen = CurrentScreen::Main;
                        self.currently_editing = None;
                    },
                    InputKey::Tab => {
                        self.toggle_editing();
                    },
                    InputKey::Char(c) => {
                        match self.currently_editing {
                            Some(CurrentlyEditing::Key) => {
                                self.key_input.push(c);
                            },
                            Some(CurrentlyEditing::Value) => {
                                self.value_input.push(c);
                            },
                            None => {},
                        }
                    },
                    _ => {},
                }
                None
            },
        }
    }

    /// Runs one left-button release at `(x, y)` through the machine:
    /// hit-testing against the last-rendered control rectangles, one
    /// clamped hit-point step on a hit, hover cleared on a miss.
    pub fn handle_mouse_up(&mut self, x: u16, y: u16)
        requires
            old(self).wf(),
        ensures
            final(self).wf(),
            final(self)@ == spec_mouse_step(old(self)@, x, y),
            final(self).char_sheet == (CharSheet {
                health: final(self).char_sheet.health,
                ..old(self).char_sheet
            }),
    {
        let hit_minus = match self.minus_button {
            Some(r) => r.contains(x, y),
            None => false,
        };
        let hit_plus = match self.plus_button {
            Some(r) => r.contains(x, y),
            None => false,
        };
        if hit_minus {
            self.char_sheet.health.hp_decrease();
            self.hovered_button = Some(HpButton::Minus);
        } else if hit_plus {
            self.char_sheet.health.hp_increase();
            self.hovered_button = Some(HpButton::Plus);
        } else {
            self.hovered_button = None;
        }
    }
}

} // verus!
