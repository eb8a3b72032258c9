//! User interactions and the translation of key presses into them.
use vstd::prelude::*;

verus! {

/// Every user interaction is represented as an Action.
///
/// The event loop maps key events to actions, and `App::handle_action`
/// dispatches them to the appropriate state transition.
#[derive(Debug, Clone, Copy, PartialEq, Eq, Structural)]
pub enum Action {
    Quit,
    Back,
    Up,
    Down,
    PageUp,
    PageDown,
    Select,
    /// Append a printable character to the active text input.
    CharInput(char),
    Backspace,
    Submit,
    ToggleVisibility,
    NewEntry,
    EditEntry,
    DeleteEntry,
    DuplicateEntry,
    CopyPassword,
    CopyUsername,
    CopyUrl,
    SaveEntry,
    StartSearch,
    NextField,
    PrevField,
    Lock,
    Tick,
    /// Mouse click at terminal coordinates (column, row).
    Click(u16, u16),
    OpenSettings,
    ToggleSetting,
    GeneratePassword,
    Help,
    Export,
    Import,
    StartReset,
}

/// The key of a key press, as far as the interface distinguishes keys.
#[derive(Debug, Clone, Copy, PartialEq, Eq, Structural)]
pub enum KeyCode {
    Char(char),
    Backspace,
    Enter,
    Esc,
    Tab,
    BackTab,
    Up,
    Down,
    Left,
    Right,
    PageUp,
    PageDown,
    /// Any other key.
    Other,
}

/// A key press: the key and whether Control was held.
#[derive(Debug, Clone, Copy, PartialEq, Eq, Structural)]
pub struct KeyPress {
    pub code: KeyCode,
    pub ctrl: bool,
}

/// Which screen a key press arrives at.
#[derive(Debug, Clone, Copy, PartialEq, Eq, Structural)]
pub enum Screen {
    FirstRun,
    Locked,
    EntryList,
    EntryDetail,
    EntryEdit,
    Search,
    Settings,
    Help,
}

/// Keys on the unlock and first-run screens: typing enters the password,
/// Ctrl+H or Ctrl+V shows or hides it, Ctrl+R starts a vault reset, Enter
/// submits and Esc quits.
pub open spec fn locked_or_first_run_action(key: KeyPress) -> Option<Action> {
    match key.code {
        KeyCode::Char(c) => if key.ctrl && (c == 'h' || c == 'v') {
            Some(Action::ToggleVisibility)
        } else if key.ctrl && c == 'r' {
            Some(Action::StartReset)
        } else {
            Some(Action::CharInput(c))
        },
        KeyCode::Backspace => Some(Action::Backspace),
        KeyCode::Enter => Some(Action::Submit),
        KeyCode::Esc => Some(Action::Quit),
        _ => None,
    }
}

/// Keys on the entry list, as its hint line and the help page list them.
pub open spec fn entry_list_action(key: KeyPress) -> Option<Action> {
    match key.code {
        KeyCode::Char(c) => if key.ctrl {
            if c == 'e' {
                Some(Action::Export)
            } else if c == 'i' {
                Some(Action::Import)
            } else if c == 'd' {
                Some(Action::DuplicateEntry)
            } else if c == 'l' {
                Some(Action::Lock)
            } else {
                None
            }
        } else if c == 'q' {
            Some(Action::Quit)
        } else if c == 'j' {
            Some(Action::Down)
        } else if c == 'k' {
            Some(Action::Up)
        } else if c == 'n' {
            Some(Action::NewEntry)
        } else if c == 'e' {
            Some(Action::EditEntry)
        } else if c == 'd' {
            Some(Action::DeleteEntry)
        } else if c == 'y' {
            Some(Action::CopyPassword)
        } else if c == 'u' {
            Some(Action::CopyUsername)
        } else if c == 'c' {
            Some(Action::CopyUrl)
        } else if c == '/' {
            Some(Action::StartSearch)
        } else if c == 's' {
            Some(Action::OpenSettings)
        } else if c == 'L' {
            Some(Action::Lock)
        } else if c == 'g' {
            Some(Action::PageUp)
        } else if c == 'G' {
            Some(Action::PageDown)
        } else if c == '?' {
            Some(Action::Help)
        } else {
            None
        },
        KeyCode::Down => Some(Action::Down),
        KeyCode::Up => Some(Action::Up),
        KeyCode::Enter => Some(Action::Select),
        KeyCode::PageUp => Some(Action::PageUp),
        KeyCode::PageDown => Some(Action::PageDown),
        KeyCode::Esc => Some(Action::Back),
        _ => None,
    }
}

/// Keys on the entry detail screen.
pub open spec fn entry_detail_action(key: KeyPress) -> Option<Action> {
    match key.code {
        KeyCode::Char(c) => if key.ctrl {
            if c == 'l' {
                Some(Action::Lock)
            } else {
                None
            }
        } else if c == 'p' {
            Some(Action::ToggleVisibility)
        } else if c == 'e' {
            Some(Action::EditEntry)
        } else if c == 'd' {
            Some(Action::DeleteEntry)
        } else if c == 'y' {
            Some(Action::CopyPassword)
        } else if c == 'u' {
            Some(Action::CopyUsername)
        } else if c == 'c' {
            Some(Action::CopyUrl)
        } else if c == 'q' {
            Some(Action::Back)
        } else if c == '?' {
            Some(Action::Help)
        } else {
            None
        },
        KeyCode::Esc => Some(Action::Back),
        _ => None,
    }
}

/// Keys in the entry editor; every other character is typed into the
/// active field.
pub open spec fn entry_edit_action(key: KeyPress) -> Option<Action> {
    match key.code {
        KeyCode::Tab | KeyCode::Down | KeyCode::Right | KeyCode::Enter => Some(Action::NextField),
        KeyCode::BackTab | KeyCode::Up | KeyCode::Left => Some(Action::PrevField),
        KeyCode::Esc => Some(Action::Back),
        KeyCode::Backspace => Some(Action::Backspace),
        KeyCode::Char(c) => if key.ctrl && c == 's' {
            Some(Action::SaveEntry)
        } else if key.ctrl && c == 'g' {
            Some(Action::GeneratePassword)
        } else if key.ctrl && c == 'l' {
            Some(Action::Lock)
        } else {
            Some(Action::CharInput(c))
        },
        _ => None,
    }
}

/// Keys on the search screen; other characters extend the query.
pub open spec fn search_action(key: KeyPress) -> Option<Action> {
    match key.code {
        KeyCode::Esc => Some(Action::Back),
        KeyCode::Backspace => Some(Action::Backspace),
        KeyCode::Down => Some(Action::Down),
        KeyCode::Up => Some(Action::Up),
        KeyCode::Enter => Some(Action::Select),
        KeyCode::Char(c) => if key.ctrl && c == 'l' {
            Some(Action::Lock)
        } else if key.ctrl {
            Some(Action::CharInput(c))
        } else if c == 'j' {
            Some(Action::Down)
        } else if c == 'k' {
            Some(Action::Up)
        } else if c == 'y' {
            Some(Action::CopyPassword)
        } else if c == 'u' {
            Some(Action::CopyUsername)
        } else if c == 'e' {
            Some(Action::EditEntry)
        } else if c == 'd' {
            Some(Action::DeleteEntry)
        } else {
            Some(Action::CharInput(c))
        },
        _ => None,
    }
}

/// Keys on the settings screen; digits go into a number being edited.
pub open spec fn settings_action(key: KeyPress) -> Option<Action> {
    match key.code {
        KeyCode::Esc => Some(Action::Back),
        KeyCode::Backspace => Some(Action::Backspace),
        KeyCode::Down => Some(Action::Down),
        KeyCode::Up => Some(Action::Up),
        KeyCode::Enter => Some(Action::ToggleSetting),
        KeyCode::Char(c) => if key.ctrl {
            if c == 's' {
                Some(Action::SaveEntry)
            } else if c == 'l' {
                Some(Action::Lock)
            } else {
                None
            }
        } else if c == 'j' {
            Some(Action::Down)
        } else if c == 'k' {
            Some(Action::Up)
        } else if c == ' ' {
            Some(Action::ToggleSetting)
        } else if c == 'q' {
            Some(Action::Quit)
        } else if c == '?' {
            Some(Action::Help)
        } else if '0' <= c && c <= '9' {
            Some(Action::CharInput(c))
        } else {
            None
        },
        _ => None,
    }
}

/// Keys on the help screen: Esc, q or ? close it.
pub open spec fn help_action(key: KeyPress) -> Option<Action> {
    match key.code {
        KeyCode::Esc => Some(Action::Back),
        KeyCode::Char(c) => if key.ctrl {
            if c == 'l' {
                Some(Action::Lock)
            } else {
                None
            }
        } else if c == 'q' || c == '?' {
            Some(Action::Back)
        } else {
            None
        },
        _ => None,
    }
}

/// The action a key press means on a screen.
pub open spec fn key_action(screen: Screen, key: KeyPress) -> Option<Action> {
    match screen {
        Screen::FirstRun | Screen::Locked => locked_or_first_run_action(key),
        Screen::EntryList => entry_list_action(key),
        Screen::EntryDetail => entry_detail_action(key),
        Screen::EntryEdit => entry_edit_action(key),
        Screen::Search => search_action(key),
        Screen::Settings => settings_action(key),
        Screen::Help => help_action(key),
    }
}

fn map_locked_or_firstrun(key: KeyPress) -> (r: Option<Action>)
    ensures
        r == locked_or_first_run_action(key),
{
    match key.code {
        KeyCode::Char(c) => {
            if key.ctrl && (c == 'h' || c == 'v') {
                Some(Action::ToggleVisibility)
            } else if key.ctrl && c == 'r' {
                Some(Action::StartReset)
            } else {
                Some(Action::CharInput(c))
            }
        },
        KeyCode::Backspace => Some(Action::Backspace),
        KeyCode::Enter => Some(Action::Submit),
        KeyCode::Esc => Some(Action::Quit),
        _ => None,
    }
}

fn map_entry_list(key: KeyPress) -> (r: Option<Action>)
    ensures
        r == entry_list_action(key),
{
    match key.code {
        KeyCode::Char(c) => {
            if key.ctrl {
                if c == 'e' {
                    Some(Action::Export)
                } else if c == 'i' {
                    Some(Action::Import)
                } else if c == 'd' {
                    Some(Action::DuplicateEntry)
                } else if c == 'l' {
                    Some(Action::Lock)
                } else {
                    None
                }
            } else if c == 'q' {
                Some(Action::Quit)
            } else if c == 'j' {
                Some(Action::Down)
            } else if c == 'k' {
                Some(Action::Up)
            } else if c == 'n' {
                Some(Action::NewEntry)
            } else if c == 'e' {
                Some(Action::EditEntry)
            } else if c == 'd' {
                Some(Action::DeleteEntry)
            } else if c == 'y' {
                Some(Action::CopyPassword)
            } else if c == 'u' {
                Some(Action::CopyUsername)
            } else if c == 'c' {
                Some(Action::CopyUrl)
            } else if c == '/' {
                Some(Action::StartSearch)
            } else if c == 's' {
                Some(Action::OpenSettings)
            } else if c == 'L' {
                Some(Action::Lock)
            } else if c == 'g' {
                Some(Action::PageUp)
            } else if c == 'G' {
                Some(Action::PageDown)
            } else if c == '?' {
                Some(Action::Help)
            } else {
                None
            }
        },
        KeyCode::Down => Some(Action::Down),
        KeyCode::Up => Some(Action::Up),
        KeyCode::Enter => Some(Action::Select),
        KeyCode::PageUp => Some(Action::PageUp),
        KeyCode::PageDown => Some(Action::PageDown),
        KeyCode::Esc => Some(Action::Back),
        _ => None,
    }
}

fn map_entry_detail(key: KeyPress) -> (r: Option<Action>)
    ensures
        r == entry_detail_action(key),
{
    match key.code {
        KeyCode::Char(c) => {
            if key.ctrl {
                if c == 'l' {
                    Some(Action::Lock)
                } else {
                    None
                }
            } else if c == 'p' {
                Some(Action::ToggleVisibility)
            } else if c == 'e' {
                Some(Action::EditEntry)
            } else if c == 'd' {
                Some(Action::DeleteEntry)
            } else if c == 'y' {
                Some(Action::CopyPassword)
            } else if c == 'u' {
                Some(Action::CopyUsername)
            } else if c == 'c' {
                Some(Action::CopyUrl)
            } else if c == 'q' {
                Some(Action::Back)
            } else if c == '?' {
                Some(Action::Help)
            } else {
                None
            }
        },
        KeyCode::Esc => Some(Action::Back),
        _ => None,
    }
}

fn map_entry_edit(key: KeyPress) -> (r: Option<Action>)
    ensures
        r == entry_edit_action(key),
{
    match key.code {
        KeyCode::Tab | KeyCode::Down | KeyCode::Right | KeyCode::Enter => Some(Action::NextField),
        KeyCode::BackTab | KeyCode::Up | KeyCode::Left => Some(Action::PrevField),
        KeyCode::Esc => Some(Action::Back),
        KeyCode::Backspace => Some(Action::Backspace),
        KeyCode::Char(c) => {
            if key.ctrl && c == 's' {
                Some(Action::SaveEntry)
            } else if key.ctrl && c == 'g' {
                Some(Action::GeneratePassword)
            } else if key.ctrl && c == 'l' {
                Some(Action::Lock)
            } else {
                Some(Action::CharInput(c))
            }
        },
        _ => None,
    }
}

fn map_search(key: KeyPress) -> (r: Option<Action>)
    ensures
        r == search_action(key),
{
    match key.code {
        KeyCode::Esc => Some(Action::Back),
        KeyCode::Backspace => Some(Action::Backspace),
        KeyCode::Down => Some(Action::Down),
        KeyCode::Up => Some(Action::Up),
        KeyCode::Enter => Some(Action::Select),
        KeyCode::Char(c) => {
            if key.ctrl && c == 'l' {
                Some(Action::Lock)
            } else if key.ctrl {
                Some(Action::CharInput(c))
            } else if c == 'j' {
                Some(Action::Down)
            } else if c == 'k' {
                Some(Action::Up)
            } else if c == 'y' {
                Some(Action::CopyPassword)
            } else if c == 'u' {
                Some(Action::CopyUsername)
            } else if c == 'e' {
                Some(Action::EditEntry)
            } else if c == 'd' {
                Some(Action::DeleteEntry)
            } else {
                Some(Action::CharInput(c))
            }
        },
        _ => None,
    }
}

fn map_settings(key: KeyPress) -> (r: Option<Action>)
    ensures
        r == settings_action(key),
{
    match key.code {
        KeyCode::Esc => Some(Action::Back),
        KeyCode::Backspace => Some(Action::Backspace),
        KeyCode::Down => Some(Action::Down),
        KeyCode::Up => Some(Action::Up),
        KeyCode::Enter => Some(Action::ToggleSetting),
        KeyCode::Char(c) => {
            if key.ctrl {
                if c == 's' {
                    Some(Action::SaveEntry)
                } else if c == 'l' {
                    Some(Action::Lock)
                } else {
                    None
                }
            } else if c == 'j' {
                Some(Action::Down)
            } else if c == 'k' {
                Some(Action::Up)
            } else if c == ' ' {
                Some(Action::ToggleSetting)
            } else if c == 'q' {
                Some(Action::Quit)
            } else if c == '?' {
                Some(Action::Help)
            } else if '0' <= c && c <= '9' {
                Some(Action::CharInput(c))
            } else {
                None
            }
        },
        _ => None,
    }
}

fn map_help(key: KeyPress) -> (r: Option<Action>)
    ensures
        r == help_action(key),
{
    match key.code {
        KeyCode::Esc => Some(Action::Back),
        KeyCode::Char(c) => {
            if key.ctrl {
                if c == 'l' {
                    Some(Action::Lock)
                } else {
                    None
                }
            } else if c == 'q' || c == '?' {
                Some(Action::Back)
            } else {
                None
            }
        },
        _ => None,
    }
}

/// Translates a key press into an action for the screen it arrives at.
pub fn map_key_to_action(screen: Screen, key: KeyPress) -> (r: Option<Action>)
    ensures
        r == key_action(screen, key),
{
    match screen {
        Screen::FirstRun | Screen::Locked => map_locked_or_firstrun(key),
        Screen::EntryList => map_entry_list(key),
        Screen::EntryDetail => map_entry_detail(key),
        Screen::EntryEdit => map_entry_edit(key),
        Screen::Search => map_search(key),
        Screen::Settings => map_settings(key),
        Screen::Help => map_help(key),
    }
}

} // verus!
