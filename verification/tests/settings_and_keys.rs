use krypton::actions::{map_key_to_action, Action, KeyCode, KeyPress, Screen};
use krypton::config::KryptonConfig;
use krypton::settings::{fmt_bool, SettingsState};

fn ctrl(c: char) -> KeyPress {
    KeyPress { code: KeyCode::Char(c), ctrl: true }
}

fn code(k: KeyCode) -> KeyPress {
    KeyPress { code: k, ctrl: false }
}

fn key(c: char) -> KeyPress {
    KeyPress { code: KeyCode::Char(c), ctrl: false }
}

#[test]
fn settings_rows() {
    let mut s = SettingsState::new();
    assert_eq!(s.len(), 12);
    assert_eq!(s.row(0), ("Hide metadata in list".to_string(), "[ ]".to_string()));
    assert_eq!(s.row(1), ("Clipboard timeout (s)".to_string(), "30".to_string()));
    assert_eq!(s.row(3), ("Password length".to_string(), "20".to_string()));
    assert_eq!(s.row(4), ("Uppercase".to_string(), "[x]".to_string()));
    assert_eq!(s.row(11), ("Clipboard tool".to_string(), "auto".to_string()));
    assert_eq!(s.row(12), (String::new(), String::new()));
    s.selected = 1;
    s.start_edit();
    assert_eq!(s.row(1).1, "30_");
    assert_eq!(fmt_bool(true), "[x]");
}

#[test]
fn toggles_flip_and_cycle() {
    let mut s = SettingsState::new();
    s.toggle(2);
    assert!(s.config.confirm_before_delete);
    s.toggle(2);
    assert!(!s.config.confirm_before_delete);
    s.toggle(1);
    assert_eq!(s.config.clipboard_timeout_secs, 30);
    let mut seen = vec![];
    for _ in 0..4 {
        s.toggle(11);
        seen.push(s.config.clipboard_tool.clone());
    }
    assert_eq!(seen, vec!["wl-copy", "xclip", "arboard", "auto"]);
    s.config.clipboard_tool = "something".into();
    s.toggle(11);
    assert_eq!(s.config.clipboard_tool, "auto");
}

#[test]
fn number_editing_clamps() {
    let mut s = SettingsState::with_config(KryptonConfig::default());
    s.selected = 1;
    s.start_edit();
    assert!(s.editing_number);
    assert_eq!(s.number_buffer, "30");
    s.number_buffer = "1000".into();
    s.commit_number();
    assert_eq!(s.config.clipboard_timeout_secs, 300);
    assert!(!s.editing_number);
    assert_eq!(s.number_buffer, "");
    s.selected = 3;
    s.start_edit();
    s.number_buffer = "2".into();
    s.commit_number();
    assert_eq!(s.config.password_length, 4);
    s.start_edit();
    s.number_buffer = "x".into();
    s.commit_number();
    assert_eq!(s.config.password_length, 4);
}

#[test]
fn edit_then_commit_keeps_value() {
    let mut s = SettingsState::new();
    s.selected = 1;
    s.start_edit();
    s.commit_number();
    assert_eq!(s.config.clipboard_timeout_secs, 30);
    s.selected = 3;
    s.start_edit();
    s.commit_number();
    assert_eq!(s.config.password_length, 20);
}

#[test]
fn start_edit_ignores_other_rows() {
    let mut s = SettingsState::new();
    s.selected = 2;
    s.start_edit();
    assert!(!s.editing_number);
}

#[test]
fn list_keys() {
    let list = |k| map_key_to_action(Screen::EntryList, k);
    assert_eq!(list(key('q')), Some(Action::Quit));
    assert_eq!(list(key('j')), Some(Action::Down));
    assert_eq!(list(key('G')), Some(Action::PageDown));
    assert_eq!(list(key('L')), Some(Action::Lock));
    assert_eq!(list(key('s')), Some(Action::OpenSettings));
    assert_eq!(list(key('u')), Some(Action::CopyUsername));
    assert_eq!(list(key('c')), Some(Action::CopyUrl));
    assert_eq!(list(key('?')), Some(Action::Help));
    assert_eq!(list(ctrl('e')), Some(Action::Export));
    assert_eq!(list(ctrl('i')), Some(Action::Import));
    assert_eq!(list(ctrl('d')), Some(Action::DuplicateEntry));
    assert_eq!(list(ctrl('l')), Some(Action::Lock));
    assert_eq!(list(key('z')), None);
    assert_eq!(list(code(KeyCode::Enter)), Some(Action::Select));
    assert_eq!(list(code(KeyCode::Esc)), Some(Action::Back));
}

#[test]
fn unlock_screen_keys() {
    assert_eq!(map_key_to_action(Screen::Locked, key('h')), Some(Action::CharInput('h')));
    assert_eq!(map_key_to_action(Screen::FirstRun, ctrl('h')), Some(Action::ToggleVisibility));
    assert_eq!(map_key_to_action(Screen::Locked, ctrl('v')), Some(Action::ToggleVisibility));
    assert_eq!(map_key_to_action(Screen::Locked, ctrl('r')), Some(Action::StartReset));
    assert_eq!(map_key_to_action(Screen::Locked, code(KeyCode::Esc)), Some(Action::Quit));
    assert_eq!(map_key_to_action(Screen::Locked, code(KeyCode::Tab)), None);
}

#[test]
fn editor_and_search_keys() {
    let edit = |k| map_key_to_action(Screen::EntryEdit, k);
    assert_eq!(edit(ctrl('s')), Some(Action::SaveEntry));
    assert_eq!(edit(ctrl('g')), Some(Action::GeneratePassword));
    assert_eq!(edit(ctrl('l')), Some(Action::Lock));
    assert_eq!(edit(key('s')), Some(Action::CharInput('s')));
    assert_eq!(edit(key('?')), Some(Action::CharInput('?')));
    assert_eq!(edit(code(KeyCode::Enter)), Some(Action::NextField));
    assert_eq!(edit(code(KeyCode::Right)), Some(Action::NextField));
    assert_eq!(edit(code(KeyCode::Down)), Some(Action::NextField));
    assert_eq!(edit(code(KeyCode::Left)), Some(Action::PrevField));
    assert_eq!(edit(code(KeyCode::Up)), Some(Action::PrevField));
    let search = |k| map_key_to_action(Screen::Search, k);
    assert_eq!(search(key('j')), Some(Action::Down));
    assert_eq!(search(key('y')), Some(Action::CopyPassword));
    assert_eq!(search(key('u')), Some(Action::CopyUsername));
    assert_eq!(search(key('e')), Some(Action::EditEntry));
    assert_eq!(search(key('d')), Some(Action::DeleteEntry));
    assert_eq!(search(key('x')), Some(Action::CharInput('x')));
    let detail = |k| map_key_to_action(Screen::EntryDetail, k);
    assert_eq!(detail(key('p')), Some(Action::ToggleVisibility));
    assert_eq!(detail(key('q')), Some(Action::Back));
    assert_eq!(detail(key('d')), Some(Action::DeleteEntry));
    assert_eq!(detail(key('c')), Some(Action::CopyUrl));
}

#[test]
fn settings_and_help_keys() {
    let settings = |k| map_key_to_action(Screen::Settings, k);
    assert_eq!(settings(key('j')), Some(Action::Down));
    assert_eq!(settings(key('k')), Some(Action::Up));
    assert_eq!(settings(key(' ')), Some(Action::ToggleSetting));
    assert_eq!(settings(code(KeyCode::Enter)), Some(Action::ToggleSetting));
    assert_eq!(settings(ctrl('s')), Some(Action::SaveEntry));
    assert_eq!(settings(code(KeyCode::Esc)), Some(Action::Back));
    assert_eq!(settings(key('7')), Some(Action::CharInput('7')));
    assert_eq!(settings(key('x')), None);
    let help = |k| map_key_to_action(Screen::Help, k);
    assert_eq!(help(key('q')), Some(Action::Back));
    assert_eq!(help(key('?')), Some(Action::Back));
    assert_eq!(help(code(KeyCode::Esc)), Some(Action::Back));
    assert_eq!(help(key('j')), None);
}
