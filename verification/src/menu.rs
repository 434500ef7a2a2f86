//! The host's interactive terminal: the answers of the first-time setup,
//! the menu choices, and the settings a choice toggles.

use vstd::prelude::*;

use crate::player::SelectionError;
use crate::settings::{writes_view, RegistryValue, RegistryWrite, RegistryWriteView};
use crate::text::{
    lowercase, opt_chars, parse_unsigned, parse_unsigned_spec, same_text, to_lowercase, trim_of, trim_text,
};

verus! {

/// A typed answer as it is compared: trimmed and lower-cased.
pub open spec fn answer_of(line: Seq<char>) -> Seq<char> {
    lowercase(trim_of(line))
}

/// Whether a typed answer says yes: `y` or `yes`, in any case.
pub open spec fn says_yes(line: Seq<char>) -> bool {
    answer_of(line) == "y"@ || answer_of(line) == "yes"@
}

/// Whether a typed answer says no: `n` or `no`, in any case.
pub open spec fn says_no(line: Seq<char>) -> bool {
    answer_of(line) == "n"@ || answer_of(line) == "no"@
}

/// Whether a typed answer says yes.
pub fn answers_yes(line: &str) -> (r: bool)
    ensures
        r == says_yes(line@),
{
    let a = to_lowercase(trim_text(line));
    same_text(a.as_str(), "y") || same_text(a.as_str(), "yes")
}

/// Whether a typed answer says no.
pub fn answers_no(line: &str) -> (r: bool)
    ensures
        r == says_no(line@),
{
    let a = to_lowercase(trim_text(line));
    same_text(a.as_str(), "n") || same_text(a.as_str(), "no")
}

/// The registry changes of the first-time setup, from the three answers
/// (`None` where reading the answer failed): start with Windows (default
/// no), unattended access (default no), remote control (default yes), then
/// the setup is marked complete.
pub open spec fn setup_writes_of(
    startup: Option<Seq<char>>,
    unattended: Option<Seq<char>>,
    control: Option<Seq<char>>,
) -> Seq<RegistryWriteView> {
    let s = match startup {
        Some(l) => if says_yes(l) {
            seq![RegistryWriteView::AddStartup]
        } else {
            seq![RegistryWriteView::Dword(RegistryValue::StartupEnabled, 0)]
        },
        None => Seq::empty(),
    };
    let u = match unattended {
        Some(l) => seq![
            RegistryWriteView::Dword(RegistryValue::Unattended, if says_yes(l) {
                1
            } else {
                0
            }),
        ],
        None => Seq::empty(),
    };
    let c = match control {
        Some(l) => seq![
            RegistryWriteView::Dword(RegistryValue::ControlEnabled, if says_no(l) {
                0
            } else {
                1
            }),
        ],
        None => seq![RegistryWriteView::Dword(RegistryValue::ControlEnabled, 1)],
    };
    s + u + c + seq![RegistryWriteView::Dword(RegistryValue::SetupCompleted, 1)]
}

/// The registry changes the first-time setup makes from its answers.
pub fn setup_writes(startup: Option<&str>, unattended: Option<&str>, control: Option<&str>) -> (w:
    Vec<RegistryWrite>)
    ensures
        writes_view(w@) == setup_writes_of(
            opt_chars(startup),
            opt_chars(unattended),
            opt_chars(control),
        ),
{
    let mut w: Vec<RegistryWrite> = Vec::new();
    match startup {
        Some(l) => {
            if answers_yes(l) {
                w.push(RegistryWrite::AddStartup);
            } else {
                w.push(RegistryWrite::Dword(RegistryValue::StartupEnabled, 0));
            }
        },
        None => {},
    }
    match unattended {
        Some(l) => {
            let v: u32 = if answers_yes(l) {
                1
            } else {
                0
            };
            w.push(RegistryWrite::Dword(RegistryValue::Unattended, v));
        },
        None => {},
    }
    match control {
        Some(l) => {
            let v: u32 = if answers_no(l) {
                0
            } else {
                1
            };
            w.push(RegistryWrite::Dword(RegistryValue::ControlEnabled, v));
        },
        None => {
            w.push(RegistryWrite::Dword(RegistryValue::ControlEnabled, 1));
        },
    }
    w.push(RegistryWrite::Dword(RegistryValue::SetupCompleted, 1));
    assert(writes_view(w@) =~= setup_writes_of(
        opt_chars(startup),
        opt_chars(unattended),
        opt_chars(control),
    ));
    w
}

/// An entry of the main menu.
#[derive(Debug, Clone, Copy, PartialEq, Eq, Structural)]
pub enum MainMenuChoice {
    StartSharing,
    Settings,
    Help,
    Exit,
    /// Anything else typed.
    Invalid,
}

/// The main-menu entry a typed line picks: `1` to `4` once trimmed.
pub open spec fn main_menu_choice_of(line: Seq<char>) -> MainMenuChoice {
    let t = trim_of(line);
    if t == "1"@ {
        MainMenuChoice::StartSharing
    } else if t == "2"@ {
        MainMenuChoice::Settings
    } else if t == "3"@ {
        MainMenuChoice::Help
    } else if t == "4"@ {
        MainMenuChoice::Exit
    } else {
        MainMenuChoice::Invalid
    }
}

/// Reads a main-menu choice.
pub fn main_menu_choice(line: &str) -> (c: MainMenuChoice)
    ensures
        c == main_menu_choice_of(line@),
{
    let t = trim_text(line);
    if same_text(t, "1") {
        MainMenuChoice::StartSharing
    } else if same_text(t, "2") {
        MainMenuChoice::Settings
    } else if same_text(t, "3") {
        MainMenuChoice::Help
    } else if same_text(t, "4") {
        MainMenuChoice::Exit
    } else {
        MainMenuChoice::Invalid
    }
}

/// An entry of the settings menu.
#[derive(Debug, Clone, Copy, PartialEq, Eq, Structural)]
pub enum SettingsChoice {
    ToggleStartup,
    ToggleUnattended,
    ToggleControl,
    Back,
    /// Anything else typed.
    Invalid,
}

/// The settings-menu entry a typed line picks: `1` to `4` once trimmed.
pub open spec fn settings_choice_of(line: Seq<char>) -> SettingsChoice {
    let t = trim_of(line);
    if t == "1"@ {
        SettingsChoice::ToggleStartup
    } else if t == "2"@ {
        SettingsChoice::ToggleUnattended
    } else if t == "3"@ {
        SettingsChoice::ToggleControl
    } else if t == "4"@ {
        SettingsChoice::Back
    } else {
        SettingsChoice::Invalid
    }
}

/// Reads a settings-menu choice.
pub fn settings_choice(line: &str) -> (c: SettingsChoice)
    ensures
        c == settings_choice_of(line@),
{
    let t = trim_text(line);
    if same_text(t, "1") {
        SettingsChoice::ToggleStartup
    } else if same_text(t, "2") {
        SettingsChoice::ToggleUnattended
    } else if same_text(t, "3") {
        SettingsChoice::ToggleControl
    } else if same_text(t, "4") {
        SettingsChoice::Back
    } else {
        SettingsChoice::Invalid
    }
}

/// The host's switches as the settings menu shows them.
#[derive(Debug, Clone, Copy, PartialEq, Eq, Structural)]
pub struct HostSwitches {
    pub startup: bool,
    pub unattended: bool,
    pub control: bool,
}

/// Reads the switches from their registry values (`None` when unset):
/// start-up and unattended access are off unless set to 1, remote control
/// is on unless set to something other than 1.
pub fn host_switches(startup: Option<u32>, unattended: Option<u32>, control: Option<u32>) -> (s:
    HostSwitches)
    ensures
        s.startup == (startup == Some(1u32)),
        s.unattended == (unattended == Some(1u32)),
        s.control == (control is None || control == Some(1u32)),
{
    HostSwitches {
        startup: match startup {
            Some(v) => v == 1,
            None => false,
        },
        unattended: match unattended {
            Some(v) => v == 1,
            None => false,
        },
        control: match control {
            Some(v) => v == 1,
            None => true,
        },
    }
}

/// The registry changes a settings-menu choice makes: each entry flips its
/// switch (start-up by registering or removing the service).
pub open spec fn toggle_writes_of(c: SettingsChoice, s: HostSwitches) -> Seq<RegistryWriteView> {
    match c {
        SettingsChoice::ToggleStartup => if s.startup {
            seq![
                RegistryWriteView::RemoveStartup,
                RegistryWriteView::Dword(RegistryValue::StartupEnabled, 0),
            ]
        } else {
            seq![RegistryWriteView::AddStartup]
        },
        SettingsChoice::ToggleUnattended => seq![
            RegistryWriteView::Dword(RegistryValue::Unattended, if s.unattended {
                0
            } else {
                1
            }),
        ],
        SettingsChoice::ToggleControl => seq![
            RegistryWriteView::Dword(RegistryValue::ControlEnabled, if s.control {
                0
            } else {
                1
            }),
        ],
        _ => Seq::empty(),
    }
}

/// The registry changes of a settings-menu choice.
pub fn toggle_writes(c: SettingsChoice, s: HostSwitches) -> (w: Vec<RegistryWrite>)
    ensures
        writes_view(w@) == toggle_writes_of(c, s),
{
    let mut w: Vec<RegistryWrite> = Vec::new();
    match c {
        SettingsChoice::ToggleStartup => {
            if s.startup {
                w.push(RegistryWrite::RemoveStartup);
                w.push(RegistryWrite::Dword(RegistryValue::StartupEnabled, 0));
            } else {
                w.push(RegistryWrite::AddStartup);
            }
        },
        SettingsChoice::ToggleUnattended => {
            let v: u32 = if s.unattended {
                0
            } else {
                1
            };
            w.push(RegistryWrite::Dword(RegistryValue::Unattended, v));
        },
        SettingsChoice::ToggleControl => {
            let v: u32 = if s.control {
                0
            } else {
                1
            };
            w.push(RegistryWrite::Dword(RegistryValue::ControlEnabled, v));
        },
        _ => {},
    }
    assert(writes_view(w@) =~= toggle_writes_of(c, s));
    w
}

/// The switches after a run of registry changes, when registering the
/// service at start-up succeeds.
pub open spec fn after_writes(s: HostSwitches, w: Seq<RegistryWriteView>) -> HostSwitches
    decreases w.len(),
{
    if w.len() == 0 {
        s
    } else {
        let p = after_writes(s, w.drop_last());
        match w.last() {
            RegistryWriteView::AddStartup => HostSwitches { startup: true, ..p },
            RegistryWriteView::RemoveStartup => p,
            RegistryWriteView::Dword(RegistryValue::StartupEnabled, v) => HostSwitches {
                startup: v == 1,
                ..p
            },
            RegistryWriteView::Dword(RegistryValue::Unattended, v) => HostSwitches {
                unattended: v == 1,
                ..p
            },
            RegistryWriteView::Dword(RegistryValue::ControlEnabled, v) => HostSwitches {
                control: v == 1,
                ..p
            },
            _ => p,
        }
    }
}

/// A settings entry flips its switch and leaves the others, so picking it
/// twice restores the settings.
pub proof fn lemma_toggle_twice_restores(c: SettingsChoice, s: HostSwitches)
    ensures
        c == SettingsChoice::ToggleStartup ==> after_writes(s, toggle_writes_of(c, s)) == (
        HostSwitches { startup: !s.startup, ..s }),
        c == SettingsChoice::ToggleUnattended ==> after_writes(s, toggle_writes_of(c, s)) == (
        HostSwitches { unattended: !s.unattended, ..s }),
        c == SettingsChoice::ToggleControl ==> after_writes(s, toggle_writes_of(c, s)) == (
        HostSwitches { control: !s.control, ..s }),
        after_writes(
            after_writes(s, toggle_writes_of(c, s)),
            toggle_writes_of(c, after_writes(s, toggle_writes_of(c, s))),
        ) == s,
{
    reveal_with_fuel(after_writes, 3);
    let w = toggle_writes_of(c, s);
    let s1 = after_writes(s, w);
    let w2 = toggle_writes_of(c, s1);
    assert(w.len() == 2 ==> w.drop_last() =~= seq![RegistryWriteView::RemoveStartup]);
    assert(w2.len() == 2 ==> w2.drop_last() =~= seq![RegistryWriteView::RemoveStartup]);
    assert(seq![RegistryWriteView::RemoveStartup].drop_last() =~= Seq::<RegistryWriteView>::empty());
    assert(w.len() == 1 ==> w.drop_last() =~= Seq::<RegistryWriteView>::empty());
    assert(w2.len() == 1 ==> w2.drop_last() =~= Seq::<RegistryWriteView>::empty());
}

/// Reads the number of a listed item (from 1) among `count`: its position
/// from 0, or why the line does not pick one.
pub open spec fn listed_pick_of(line: Seq<char>, count: nat) -> Result<usize, SelectionError> {
    match parse_unsigned_spec(trim_of(line), usize::MAX as nat) {
        None => Err(SelectionError::Invalid),
        Some(k) => if k == 0 || k > count {
            Err(SelectionError::OutOfRange)
        } else {
            Ok((k - 1) as usize)
        },
    }
}

/// Reads the window picked from the numbered list of `count` windows.
pub fn pick_listed(line: &str, count: usize) -> (r: Result<usize, SelectionError>)
    ensures
        r == listed_pick_of(line@, count as nat),
{
    let t = trim_text(line);
    match parse_unsigned(t, usize::MAX as u64) {
        None => Err(SelectionError::Invalid),
        Some(k) => {
            if k == 0 || k > count as u64 {
                Err(SelectionError::OutOfRange)
            } else {
                Ok((k - 1) as usize)
            }
        },
    }
}

} // verus!
