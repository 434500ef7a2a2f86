use beacon_pulse::menu::{
    answers_no, answers_yes, host_switches, main_menu_choice, pick_listed, settings_choice,
    setup_writes, toggle_writes, HostSwitches, MainMenuChoice, SettingsChoice,
};
use beacon_pulse::player::SelectionError;
use beacon_pulse::settings::RegistryWrite;

fn describe(w: &[RegistryWrite]) -> Vec<String> {
    w.iter()
        .map(|w| match w {
            RegistryWrite::Dword(k, v) => format!("{}={}", k.name(), v),
            RegistryWrite::Text(k, t) => format!("{}='{}'", k.name(), t),
            RegistryWrite::Delete(k) => format!("-{}", k.name()),
            RegistryWrite::AddStartup => "+startup".to_string(),
            RegistryWrite::RemoveStartup => "-startup".to_string(),
        })
        .collect()
}

#[test]
fn yes_and_no_answers() {
    assert!(answers_yes("y\r\n"));
    assert!(answers_yes("  YES "));
    assert!(answers_yes("Yes"));
    assert!(!answers_yes(""));
    assert!(!answers_yes("yep"));
    assert!(answers_no("N\n"));
    assert!(answers_no("no"));
    assert!(!answers_no("nope"));
    assert!(!answers_no("\n"));
}

#[test]
fn first_time_setup_writes() {
    assert_eq!(
        describe(&setup_writes(Some("y\n"), Some("yes\n"), Some("n\n"))),
        vec!["+startup", "Unattended=1", "ControlEnabled=0", "SetupCompleted=1"]
    );
    assert_eq!(
        describe(&setup_writes(Some("\n"), Some("\n"), Some("\n"))),
        vec!["StartupEnabled=0", "Unattended=0", "ControlEnabled=1", "SetupCompleted=1"]
    );
    assert_eq!(
        describe(&setup_writes(None, None, None)),
        vec!["ControlEnabled=1", "SetupCompleted=1"]
    );
}

#[test]
fn menu_choices() {
    assert_eq!(main_menu_choice("1\r\n"), MainMenuChoice::StartSharing);
    assert_eq!(main_menu_choice(" 2 "), MainMenuChoice::Settings);
    assert_eq!(main_menu_choice("3"), MainMenuChoice::Help);
    assert_eq!(main_menu_choice("4\n"), MainMenuChoice::Exit);
    assert_eq!(main_menu_choice("5"), MainMenuChoice::Invalid);
    assert_eq!(main_menu_choice("01"), MainMenuChoice::Invalid);
    assert_eq!(settings_choice("1"), SettingsChoice::ToggleStartup);
    assert_eq!(settings_choice("2"), SettingsChoice::ToggleUnattended);
    assert_eq!(settings_choice("3"), SettingsChoice::ToggleControl);
    assert_eq!(settings_choice("4"), SettingsChoice::Back);
    assert_eq!(settings_choice("x"), SettingsChoice::Invalid);
}

#[test]
fn switches_and_toggles() {
    let s = host_switches(None, None, None);
    assert_eq!(s, HostSwitches { startup: false, unattended: false, control: true });
    let t = host_switches(Some(1), Some(1), Some(0));
    assert_eq!(t, HostSwitches { startup: true, unattended: true, control: false });
    assert_eq!(describe(&toggle_writes(SettingsChoice::ToggleStartup, s)), vec!["+startup"]);
    assert_eq!(
        describe(&toggle_writes(SettingsChoice::ToggleStartup, t)),
        vec!["-startup", "StartupEnabled=0"]
    );
    assert_eq!(describe(&toggle_writes(SettingsChoice::ToggleUnattended, s)), vec!["Unattended=1"]);
    assert_eq!(describe(&toggle_writes(SettingsChoice::ToggleUnattended, t)), vec!["Unattended=0"]);
    assert_eq!(describe(&toggle_writes(SettingsChoice::ToggleControl, s)), vec!["ControlEnabled=0"]);
    assert_eq!(describe(&toggle_writes(SettingsChoice::ToggleControl, t)), vec!["ControlEnabled=1"]);
    assert!(toggle_writes(SettingsChoice::Back, s).is_empty());
    assert!(toggle_writes(SettingsChoice::Invalid, t).is_empty());
}

#[test]
fn window_pick_by_number() {
    assert_eq!(pick_listed("3\n", 5), Ok(2));
    assert_eq!(pick_listed("1", 1), Ok(0));
    assert_eq!(pick_listed("0", 5), Err(SelectionError::OutOfRange));
    assert_eq!(pick_listed("6", 5), Err(SelectionError::OutOfRange));
    assert_eq!(pick_listed("abc", 5), Err(SelectionError::Invalid));
    assert_eq!(pick_listed("-1", 5), Err(SelectionError::Invalid));
}
