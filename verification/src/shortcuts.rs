//! Keys and shortcuts: which keys the front end listens to on each screen,
//! and when a pressed key is meant by a shortcut.

use crate::text::{split, split_at_char, str_eq};
use vstd::prelude::*;

verus! {

/// A key of the keyboard, as far as shortcuts can name it.
#[derive(Clone, Copy, Debug, PartialEq, Eq, Structural)]
pub enum KeyCode {
    Backspace,
    Enter,
    Left,
    Right,
    Up,
    Down,
    Home,
    End,
    Tab,
    Delete,
    Esc,
    /// A key that types a character.
    Char(char),
    /// Any other key.
    Other,
}

/// The modifier keys held down with a key, one bit each.
#[derive(Clone, Copy, Debug, PartialEq, Eq, Structural)]
pub struct KeyModifiers {
    /// Shift is 1, Control 2, Alt 4, Super 8, Hyper 16, Meta 32.
    pub bits: u8,
}

/// A pressed key with its modifiers.
#[derive(Clone, Copy, Debug, PartialEq, Eq, Structural)]
pub struct KeyEvent {
    /// The key.
    pub code: KeyCode,
    /// The modifiers held down.
    pub modifiers: KeyModifiers,
}

/// The bit of the Shift key.
pub const SHIFT: u8 = 1;

/// The bit of the Control key.
pub const CONTROL: u8 = 2;

/// The bit of the Alt key.
pub const ALT: u8 = 4;

impl KeyModifiers {
    /// No modifier.
    pub fn empty() -> (modifiers: Self)
        ensures
            modifiers.bits == 0,
    {
        KeyModifiers { bits: 0 }
    }

    /// Shift alone.
    pub fn shift() -> (modifiers: Self)
        ensures
            modifiers.bits == SHIFT,
    {
        KeyModifiers { bits: SHIFT }
    }

    /// Control alone.
    pub fn control() -> (modifiers: Self)
        ensures
            modifiers.bits == CONTROL,
    {
        KeyModifiers { bits: CONTROL }
    }

    /// Alt alone.
    pub fn alt() -> (modifiers: Self)
        ensures
            modifiers.bits == ALT,
    {
        KeyModifiers { bits: ALT }
    }

    /// The modifiers whose bits are set in `bits`.
    pub fn from_bits(bits: u8) -> (modifiers: Self)
        ensures
            modifiers.bits == bits,
    {
        KeyModifiers { bits }
    }

    /// Whether all modifiers of `other` are among these.
    pub fn contains(&self, other: KeyModifiers) -> (all: bool)
        ensures
            all == (self.bits & other.bits == other.bits),
    {
        self.bits & other.bits == other.bits
    }
}

impl KeyEvent {
    /// The key `code` pressed with `modifiers`.
    pub fn new(code: KeyCode, modifiers: KeyModifiers) -> (key: Self)
        ensures
            key.code == code,
            key.modifiers == modifiers,
    {
        KeyEvent { code, modifiers }
    }
}

/// Shortcuts of one screen: the list of jobs.
#[derive(Debug, PartialEq, Eq)]
pub struct MainShortcuts {
    /// Leave the application.
    pub quit: Vec<String>,
    /// Open the settings.
    pub settings: Vec<String>,
    /// Look for receipts again.
    pub refresh: Vec<String>,
    /// Edit the selected job.
    pub enter: Vec<String>,
    /// Select the next job.
    pub down: Vec<String>,
    /// Select the job before.
    pub up: Vec<String>,
}

/// Shortcuts of one screen: the settings.
#[derive(Debug, PartialEq, Eq)]
pub struct SettingsShortcuts {
    /// Leave without saving.
    pub cancel: Vec<String>,
    /// Save and leave.
    pub save: Vec<String>,
    /// Enter the input folder.
    pub input_folder: Vec<String>,
    /// Enter the output folder.
    pub output_folder: Vec<String>,
    /// Enter the template.
    pub template: Vec<String>,
    /// Enter the user's name.
    pub name: Vec<String>,
}

/// Shortcuts of one screen: the fields of a job.
#[derive(Debug, PartialEq, Eq)]
pub struct EditJobShortcuts {
    /// Leave the job.
    pub cancel: Vec<String>,
    /// Move to the next field.
    pub next_field: Vec<String>,
    /// Commit the job.
    pub commit: Vec<String>,
    /// Enter the target month.
    pub target_month: Vec<String>,
    /// Edit the field.
    pub edit_field: Vec<String>,
}

/// Shortcuts of one screen: the first-start wizard.
#[derive(Debug, PartialEq, Eq)]
pub struct WizardShortcuts {
    /// Go on.
    pub proceed: Vec<String>,
    /// Skip the step.
    pub skip: Vec<String>,
}

/// Shortcuts of one screen: the input box.
#[derive(Debug, PartialEq, Eq)]
pub struct InputBoxShortcuts {
    /// Take the text.
    pub confirm: Vec<String>,
    /// Drop the text.
    pub cancel: Vec<String>,
    /// Delete before the cursor.
    pub backspace: Vec<String>,
    /// Delete at the cursor.
    pub delete: Vec<String>,
    /// Move the cursor left.
    pub left: Vec<String>,
    /// Move the cursor right.
    pub right: Vec<String>,
    /// Move the cursor to the start.
    pub home: Vec<String>,
    /// Move the cursor to the end.
    pub end: Vec<String>,
    /// Empty the line.
    pub clear_line: Vec<String>,
}

/// All shortcuts, screen by screen.
#[derive(Debug, PartialEq, Eq)]
pub struct Shortcuts {
    pub main: MainShortcuts,
    pub settings: SettingsShortcuts,
    pub edit_job: EditJobShortcuts,
    pub wizard: WizardShortcuts,
    pub input_box: InputBoxShortcuts,
}

/// `MainShortcuts` as mathematical text.
pub struct MainShortcutsView {
    pub quit: Seq<Seq<char>>,
    pub settings: Seq<Seq<char>>,
    pub refresh: Seq<Seq<char>>,
    pub enter: Seq<Seq<char>>,
    pub down: Seq<Seq<char>>,
    pub up: Seq<Seq<char>>,
}

/// `SettingsShortcuts` as mathematical text.
pub struct SettingsShortcutsView {
    pub cancel: Seq<Seq<char>>,
    pub save: Seq<Seq<char>>,
    pub input_folder: Seq<Seq<char>>,
    pub output_folder: Seq<Seq<char>>,
    pub template: Seq<Seq<char>>,
    pub name: Seq<Seq<char>>,
}

/// `EditJobShortcuts` as mathematical text.
pub struct EditJobShortcutsView {
    pub cancel: Seq<Seq<char>>,
    pub next_field: Seq<Seq<char>>,
    pub commit: Seq<Seq<char>>,
    pub target_month: Seq<Seq<char>>,
    pub edit_field: Seq<Seq<char>>,
}

/// `WizardShortcuts` as mathematical text.
pub struct WizardShortcutsView {
    pub proceed: Seq<Seq<char>>,
    pub skip: Seq<Seq<char>>,
}

/// `InputBoxShortcuts` as mathematical text.
pub struct InputBoxShortcutsView {
    pub confirm: Seq<Seq<char>>,
    pub cancel: Seq<Seq<char>>,
    pub backspace: Seq<Seq<char>>,
    pub delete: Seq<Seq<char>>,
    pub left: Seq<Seq<char>>,
    pub right: Seq<Seq<char>>,
    pub home: Seq<Seq<char>>,
    pub end: Seq<Seq<char>>,
    pub clear_line: Seq<Seq<char>>,
}

/// `Shortcuts` as mathematical text.
pub struct ShortcutsView {
    pub main: MainShortcutsView,
    pub settings: SettingsShortcutsView,
    pub edit_job: EditJobShortcutsView,
    pub wizard: WizardShortcutsView,
    pub input_box: InputBoxShortcutsView,
}

impl View for MainShortcuts {
    type V = MainShortcutsView;

    open spec fn view(&self) -> MainShortcutsView {
        MainShortcutsView {
            quit: self.quit.deep_view(),
            settings: self.settings.deep_view(),
            refresh: self.refresh.deep_view(),
            enter: self.enter.deep_view(),
            down: self.down.deep_view(),
            up: self.up.deep_view(),
        }
    }
}

impl View for SettingsShortcuts {
    type V = SettingsShortcutsView;

    open spec fn view(&self) -> SettingsShortcutsView {
        SettingsShortcutsView {
            cancel: self.cancel.deep_view(),
            save: self.save.deep_view(),
            input_folder: self.input_folder.deep_view(),
            output_folder: self.output_folder.deep_view(),
            template: self.template.deep_view(),
            name: self.name.deep_view(),
        }
    }
}

impl View for EditJobShortcuts {
    type V = EditJobShortcutsView;

    open spec fn view(&self) -> EditJobShortcutsView {
        EditJobShortcutsView {
            cancel: self.cancel.deep_view(),
            next_field: self.next_field.deep_view(),
            commit: self.commit.deep_view(),
            target_month: self.target_month.deep_view(),
            edit_field: self.edit_field.deep_view(),
        }
    }
}

impl View for WizardShortcuts {
    type V = WizardShortcutsView;

    open spec fn view(&self) -> WizardShortcutsView {
        WizardShortcutsView {
            proceed: self.proceed.deep_view(),
            skip: self.skip.deep_view(),
        }
    }
}

impl View for InputBoxShortcuts {
    type V = InputBoxShortcutsView;

    open spec fn view(&self) -> InputBoxShortcutsView {
        InputBoxShortcutsView {
            confirm: self.confirm.deep_view(),
            cancel: self.cancel.deep_view(),
            backspace: self.backspace.deep_view(),
            delete: self.delete.deep_view(),
            left: self.left.deep_view(),
            right: self.right.deep_view(),
            home: self.home.deep_view(),
            end: self.end.deep_view(),
            clear_line: self.clear_line.deep_view(),
        }
    }
}

impl View for Shortcuts {
    type V = ShortcutsView;

    open spec fn view(&self) -> ShortcutsView {
        ShortcutsView {
            main: self.main@,
            settings: self.settings@,
            edit_job: self.edit_job@,
            wizard: self.wizard@,
            input_box: self.input_box@,
        }
    }
}

impl Clone for MainShortcuts {
    fn clone(&self) -> (copy: Self)
        ensures
            copy@ == self@,
    {
        let copy = MainShortcuts {
            quit: self.quit.clone(),
            settings: self.settings.clone(),
            refresh: self.refresh.clone(),
            enter: self.enter.clone(),
            down: self.down.clone(),
            up: self.up.clone(),
        };
        proof {
            assert(copy.quit.deep_view() =~= self.quit.deep_view());
            assert(copy.settings.deep_view() =~= self.settings.deep_view());
            assert(copy.refresh.deep_view() =~= self.refresh.deep_view());
            assert(copy.enter.deep_view() =~= self.enter.deep_view());
            assert(copy.down.deep_view() =~= self.down.deep_view());
            assert(copy.up.deep_view() =~= self.up.deep_view());
        }
        copy
    }
}

impl Clone for SettingsShortcuts {
    fn clone(&self) -> (copy: Self)
        ensures
            copy@ == self@,
    {
        let copy = SettingsShortcuts {
            cancel: self.cancel.clone(),
            save: self.save.clone(),
            input_folder: self.input_folder.clone(),
            output_folder: self.output_folder.clone(),
            template: self.template.clone(),
            name: self.name.clone(),
        };
        proof {
            assert(copy.cancel.deep_view() =~= self.cancel.deep_view());
            assert(copy.save.deep_view() =~= self.save.deep_view());
            assert(copy.input_folder.deep_view() =~= self.input_folder.deep_view());
            assert(copy.output_folder.deep_view() =~= self.output_folder.deep_view());
            assert(copy.template.deep_view() =~= self.template.deep_view());
            assert(copy.name.deep_view() =~= self.name.deep_view());
        }
        copy
    }
}

impl Clone for EditJobShortcuts {
    fn clone(&self) -> (copy: Self)
        ensures
            copy@ == self@,
    {
        let copy = EditJobShortcuts {
            cancel: self.cancel.clone(),
            next_field: self.next_field.clone(),
            commit: self.commit.clone(),
            target_month: self.target_month.clone(),
            edit_field: self.edit_field.clone(),
        };
        proof {
            assert(copy.cancel.deep_view() =~= self.cancel.deep_view());
            assert(copy.next_field.deep_view() =~= self.next_field.deep_view());
            assert(copy.commit.deep_view() =~= self.commit.deep_view());
            assert(copy.target_month.deep_view() =~= self.target_month.deep_view());
            assert(copy.edit_field.deep_view() =~= self.edit_field.deep_view());
        }
        copy
    }
}

impl Clone for WizardShortcuts {
    fn clone(&self) -> (copy: Self)
        ensures
            copy@ == self@,
    {
        let copy = WizardShortcuts {
            proceed: self.proceed.clone(),
            skip: self.skip.clone(),
        };
        proof {
            assert(copy.proceed.deep_view() =~= self.proceed.deep_view());
            assert(copy.skip.deep_view() =~= self.skip.deep_view());
        }
        copy
    }
}

impl Clone for InputBoxShortcuts {
    fn clone(&self) -> (copy: Self)
        ensures
            copy@ == self@,
    {
        let copy = InputBoxShortcuts {
            confirm: self.confirm.clone(),
            cancel: self.cancel.clone(),
            backspace: self.backspace.clone(),
            delete: self.delete.clone(),
            left: self.left.clone(),
            right: self.right.clone(),
            home: self.home.clone(),
            end: self.end.clone(),
            clear_line: self.clear_line.clone(),
        };
        proof {
            assert(copy.confirm.deep_view() =~= self.confirm.deep_view());
            assert(copy.cancel.deep_view() =~= self.cancel.deep_view());
            assert(copy.backspace.deep_view() =~= self.backspace.deep_view());
            assert(copy.delete.deep_view() =~= self.delete.deep_view());
            assert(copy.left.deep_view() =~= self.left.deep_view());
            assert(copy.right.deep_view() =~= self.right.deep_view());
            assert(copy.home.deep_view() =~= self.home.deep_view());
            assert(copy.end.deep_view() =~= self.end.deep_view());
            assert(copy.clear_line.deep_view() =~= self.clear_line.deep_view());
        }
        copy
    }
}

impl Clone for Shortcuts {
    fn clone(&self) -> (copy: Self)
        ensures
            copy@ == self@,
    {
        let copy = Shortcuts {
            main: self.main.clone(),
            settings: self.settings.clone(),
            edit_job: self.edit_job.clone(),
            wizard: self.wizard.clone(),
            input_box: self.input_box.clone(),
        };
        copy
    }
}

/// The shortcuts of a first start.
pub open spec fn default_shortcuts() -> ShortcutsView {
    ShortcutsView {
        main: MainShortcutsView {
            quit: seq!["q"@],
            settings: seq!["t"@],
            refresh: seq!["r"@],
            enter: seq!["Enter"@],
            down: seq!["Down"@, "j"@],
            up: seq!["Up"@, "k"@],
        },
        settings: SettingsShortcutsView {
            cancel: seq!["Esc"@],
            save: seq!["Enter"@],
            input_folder: seq!["i"@],
            output_folder: seq!["o"@],
            template: seq!["p"@],
            name: seq!["n"@],
        },
        edit_job: EditJobShortcutsView {
            cancel: seq!["Esc"@],
            next_field: seq!["Tab"@],
            commit: seq!["Enter"@],
            target_month: seq!["m"@],
            edit_field: seq!["e"@],
        },
        wizard: WizardShortcutsView {
            proceed: seq!["Enter"@],
            skip: seq!["Esc"@],
        },
        input_box: InputBoxShortcutsView {
            confirm: seq!["Enter"@],
            cancel: seq!["Esc"@],
            backspace: seq!["Backspace"@],
            delete: seq!["Delete"@],
            left: seq!["Left"@, "h"@],
            right: seq!["Right"@, "l"@],
            home: seq!["Home"@],
            end: seq!["End"@],
            clear_line: seq!["Ctrl+u"@],
        },
    }
}

/// A list with the one shortcut `key`.
fn one_key(key: &str) -> (keys: Vec<String>)
    ensures
        keys.deep_view() == seq![key@],
{
    let mut keys: Vec<String> = Vec::new();
    keys.push(key.to_owned());
    proof {
        assert(keys.deep_view() =~= seq![key@]);
    }
    keys
}

/// A list with the two shortcuts `first` and `second`.
fn two_keys(first: &str, second: &str) -> (keys: Vec<String>)
    ensures
        keys.deep_view() == seq![first@, second@],
{
    let mut keys: Vec<String> = Vec::new();
    keys.push(first.to_owned());
    keys.push(second.to_owned());
    proof {
        assert(keys.deep_view() =~= seq![first@, second@]);
    }
    keys
}

impl Default for Shortcuts {
    /// The shortcuts of a first start.
    fn default() -> (shortcuts: Self)
        ensures
            shortcuts@ == default_shortcuts(),
    {
        Shortcuts {
            main: MainShortcuts {
                quit: one_key("q"),
                settings: one_key("t"),
                refresh: one_key("r"),
                enter: one_key("Enter"),
                down: two_keys("Down", "j"),
                up: two_keys("Up", "k"),
            },
            settings: SettingsShortcuts {
                cancel: one_key("Esc"),
                save: one_key("Enter"),
                input_folder: one_key("i"),
                output_folder: one_key("o"),
                template: one_key("p"),
                name: one_key("n"),
            },
            edit_job: EditJobShortcuts {
                cancel: one_key("Esc"),
                next_field: one_key("Tab"),
                commit: one_key("Enter"),
                target_month: one_key("m"),
                edit_field: one_key("e"),
            },
            wizard: WizardShortcuts {
                proceed: one_key("Enter"),
                skip: one_key("Esc"),
            },
            input_box: InputBoxShortcuts {
                confirm: one_key("Enter"),
                cancel: one_key("Esc"),
                backspace: one_key("Backspace"),
                delete: one_key("Delete"),
                left: two_keys("Left", "h"),
                right: two_keys("Right", "l"),
                home: one_key("Home"),
                end: one_key("End"),
                clear_line: one_key("Ctrl+u"),
            },
        }
    }
}

/// The key that the text `name` names: one of the named keys, written with
/// a capital or a small initial, or the key that types the single ASCII
/// character `name` consists of.
pub open spec fn named_key(name: Seq<char>) -> Option<KeyCode> {
    if name == "Enter"@ || name == "enter"@ {
        Some(KeyCode::Enter)
    } else if name == "Esc"@ || name == "esc"@ {
        Some(KeyCode::Esc)
    } else if name == "Tab"@ || name == "tab"@ {
        Some(KeyCode::Tab)
    } else if name == "Backspace"@ || name == "backspace"@ {
        Some(KeyCode::Backspace)
    } else if name == "Delete"@ || name == "delete"@ {
        Some(KeyCode::Delete)
    } else if name == "Up"@ || name == "up"@ {
        Some(KeyCode::Up)
    } else if name == "Down"@ || name == "down"@ {
        Some(KeyCode::Down)
    } else if name == "Left"@ || name == "left"@ {
        Some(KeyCode::Left)
    } else if name == "Right"@ || name == "right"@ {
        Some(KeyCode::Right)
    } else if name == "Home"@ || name == "home"@ {
        Some(KeyCode::Home)
    } else if name == "End"@ || name == "end"@ {
        Some(KeyCode::End)
    } else if name.len() == 1 && (name[0] as u32) < 128 {
        Some(KeyCode::Char(name[0]))
    } else {
        None
    }
}

/// The bit of the modifier that the text `name` names: Control, Alt or
/// Shift, written `Ctrl`, `Alt`, `Shift` with a capital or a small initial.
pub open spec fn named_modifier(name: Seq<char>) -> Option<u8> {
    if name == "Ctrl"@ || name == "ctrl"@ {
        Some(CONTROL)
    } else if name == "Alt"@ || name == "alt"@ {
        Some(ALT)
    } else if name == "Shift"@ || name == "shift"@ {
        Some(SHIFT)
    } else {
        None
    }
}

/// The bits of the modifiers that `names` name, all together; `None` where
/// one of them names no modifier.
pub open spec fn named_modifiers(names: Seq<Seq<char>>) -> Option<u8>
    decreases names.len(),
{
    if names.len() == 0 {
        Some(0u8)
    } else {
        match (named_modifiers(names.drop_last()), named_modifier(names.last())) {
            (Some(before), Some(bit)) => Some(before | bit),
            _ => None,
        }
    }
}

/// Whether the shortcut `shortcut` means the pressed key `key`. A shortcut
/// is a key's name, with the names of modifiers in front, each followed by
/// `+`. It means the key when it names the key and exactly the modifiers
/// held down with it.
pub open spec fn shortcut_matches(key: KeyEvent, shortcut: Seq<char>) -> bool {
    let parts = split(shortcut, '+');
    &&& named_modifiers(parts.drop_last()) == Some(key.modifiers.bits)
    &&& named_key(parts.last()) == Some(key.code)
}

/// Whether one of the shortcuts `shortcuts` means the pressed key `key`.
pub open spec fn any_shortcut_matches(key: KeyEvent, shortcuts: Seq<Seq<char>>) -> bool {
    exists|i: int| 0 <= i < shortcuts.len() && shortcut_matches(key, #[trigger] shortcuts[i])
}

/// Whether `key` is Control together with `c`, the key that ends the
/// application everywhere.
pub open spec fn ctrl_c(key: KeyEvent) -> bool {
    key.modifiers.bits & CONTROL == CONTROL && key.code == KeyCode::Char('c')
}

/// Names that name no modifier spoil every list they stand in.
proof fn lemma_unnamed_modifier(names: Seq<Seq<char>>, i: int)
    requires
        0 <= i < names.len(),
        named_modifier(names[i]) is None,
    ensures
        named_modifiers(names) is None,
    decreases names.len(),
{
    if i < names.len() - 1 {
        lemma_unnamed_modifier(names.drop_last(), i);
    }
}

/// The key that `name` names, if any.
fn key_named(name: &str) -> (key: Option<KeyCode>)
    ensures
        key == named_key(name@),
{
    if str_eq(name, "Enter") || str_eq(name, "enter") {
        Some(KeyCode::Enter)
    } else if str_eq(name, "Esc") || str_eq(name, "esc") {
        Some(KeyCode::Esc)
    } else if str_eq(name, "Tab") || str_eq(name, "tab") {
        Some(KeyCode::Tab)
    } else if str_eq(name, "Backspace") || str_eq(name, "backspace") {
        Some(KeyCode::Backspace)
    } else if str_eq(name, "Delete") || str_eq(name, "delete") {
        Some(KeyCode::Delete)
    } else if str_eq(name, "Up") || str_eq(name, "up") {
        Some(KeyCode::Up)
    } else if str_eq(name, "Down") || str_eq(name, "down") {
        Some(KeyCode::Down)
    } else if str_eq(name, "Left") || str_eq(name, "left") {
        Some(KeyCode::Left)
    } else if str_eq(name, "Right") || str_eq(name, "right") {
        Some(KeyCode::Right)
    } else if str_eq(name, "Home") || str_eq(name, "home") {
        Some(KeyCode::Home)
    } else if str_eq(name, "End") || str_eq(name, "end") {
        Some(KeyCode::End)
    } else if name.unicode_len() == 1 {
        let c = name.get_char(0);
        if (c as u32) < 128 {
            Some(KeyCode::Char(c))
        } else {
            None
        }
    } else {
        None
    }
}

/// The bit of the modifier that `name` names, if any.
fn modifier_named(name: &str) -> (bit: Option<u8>)
    ensures
        bit == named_modifier(name@),
{
    if str_eq(name, "Ctrl") || str_eq(name, "ctrl") {
        Some(CONTROL)
    } else if str_eq(name, "Alt") || str_eq(name, "alt") {
        Some(ALT)
    } else if str_eq(name, "Shift") || str_eq(name, "shift") {
        Some(SHIFT)
    } else {
        None
    }
}

/// Whether the shortcut `shortcut` means the pressed key `key`.
pub fn matches_single_shortcut(key: &KeyEvent, shortcut: &str) -> (matches: bool)
    ensures
        matches == shortcut_matches(*key, shortcut@),
{
    let parts = split_at_char(shortcut, '+');
    let n = parts.len();
    let ghost names = parts.deep_view().drop_last();
    let mut expected: u8 = 0;
    let mut i: usize = 0;
    while i < n - 1
        invariant
            n == parts.len(),
            n >= 1,
            i <= n - 1,
            parts.deep_view() == split(shortcut@, '+'),
            names == parts.deep_view().drop_last(),
            named_modifiers(names.take(i as int)) == Some(expected),
        decreases n - 1 - i,
    {
        proof {
            assert(names[i as int] == parts@[i as int]@);
            assert(names.take(i as int + 1).drop_last() =~= names.take(i as int));
            assert(names.take(i as int + 1).last() == names[i as int]);
        }
        match modifier_named(parts[i].as_str()) {
            Some(bit) => {
                expected = expected | bit;
            },
            None => {
                proof {
                    lemma_unnamed_modifier(names, i as int);
                }
                return false;
            },
        }
        i += 1;
    }
    proof {
        assert(names.take(n - 1) =~= names);
        assert(parts.deep_view().last() == parts@[n - 1]@);
    }
    if key.modifiers.bits != expected {
        return false;
    }
    match key_named(parts[n - 1].as_str()) {
        Some(code) => code == key.code,
        None => false,
    }
}

/// Whether one of the shortcuts `shortcuts` means the pressed key `key`.
pub fn matches_shortcut(key: &KeyEvent, shortcuts: &[String]) -> (matches: bool)
    ensures
        matches == any_shortcut_matches(*key, shortcuts.deep_view()),
{
    let mut i: usize = 0;
    while i < shortcuts.len()
        invariant
            i <= shortcuts.len(),
            forall|k: int| 0 <= k < i ==> !shortcut_matches(*key, #[trigger] shortcuts.deep_view()[k]),
        decreases shortcuts.len() - i,
    {
        proof {
            assert(shortcuts.deep_view()[i as int] == shortcuts@[i as int]@);
        }
        if matches_single_shortcut(key, shortcuts[i].as_str()) {
            return true;
        }
        i += 1;
    }
    false
}

/// Whether `key` is Control together with `c`.
pub fn is_ctrl_c(key: &KeyEvent) -> (yes: bool)
    ensures
        yes == ctrl_c(*key),
{
    key.modifiers.contains(KeyModifiers::control()) && key.code == KeyCode::Char('c')
}

} // verus!
