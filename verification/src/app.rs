//! The interface's state machine: each action (and each reply to a query
//! the interface made) moves it to its next state and says what to ask of
//! the vault service and the desktop next.
use vstd::prelude::*;
use crate::actions::{Action, Screen};
use crate::app_state::{
    AppState, Command, ConfirmAction, Effect, EntryDetailState, EntryEditState, EntryListState,
    ExportOutcome, FirstRunState, FirstRunStep, ImportOutcome, LockedState, Query, Rect, Reply,
    ResetStep, SearchState, Toast, ToastKind, UnlockedView, row_hit,
};
use crate::config::{Accent, KryptonConfig, accent_for};
use crate::error::{VaultError, error_text};
use crate::models::{Entry, EntryId, EntrySummary};
use crate::settings::SettingsState;
use crate::text::{push_char, pop_char, without_last};

verus! {

/// What the interface is waiting for.
pub enum Pending {
    /// Nothing: the next input is an action.
    Idle,
    /// The reply to creating the vault on the first-run screen.
    CreateVault,
    /// The reply to unlocking on the unlock screen.
    Unlock,
    /// The entry list, to build the list screen; on failure report as given.
    LoadList(ListFailure),
    /// The first entry of a freshly loaded list, for its preview.
    LoadPreview(Vec<EntrySummary>),
    /// The selected entry, for the list's preview panel.
    Preview,
    /// An entry to show on the detail screen.
    OpenDetail,
    /// An entry to open in the editor; load failures are reported in a
    /// toast when `toast_errors` is set.
    OpenEdit { toast_errors: bool },
    /// The result of deleting an entry, then what to do.
    Deleted(AfterChange),
    /// The entry list again, to refresh the list screen in place.
    Reload,
    /// An entry whose field is to be copied, and how to report the copy.
    CopyFrom(CopyField, CopyNotice),
    /// Whether the clipboard took the text, and how to report it.
    Copied(CopyNotice),
    /// An entry to duplicate, then what to do.
    DuplicateLoad(AfterChange),
    /// The time and identifier for the duplicate of this entry.
    DuplicateStamp(Entry, AfterChange),
    /// The result of storing a duplicate, then what to do.
    Duplicated(AfterChange),
    /// A generated password for the editor.
    Generate,
    /// The time and identifier for saving the editor's entry.
    SaveStamp,
    /// The result of saving the editor's entry.
    Saved,
    /// Search results.
    SearchResults,
    /// The result of writing the settings to disk.
    SaveSettings,
    /// The result of an export.
    Export,
    /// The entries read for an import.
    Import,
    /// The result of storing one imported entry; `rest` are still to be
    /// stored, `count` were read in all.
    ImportNext { rest: Vec<Entry>, count: usize },
}

/// What follows a successful change of the stored entries.
#[derive(Debug, Clone, Copy, PartialEq, Eq, Structural)]
pub enum AfterChange {
    /// Refresh the list screen in place.
    Reload,
    /// Go back to the list screen.
    PopToList,
}

/// Which field of an entry is copied.
#[derive(Debug, Clone, Copy, PartialEq, Eq, Structural)]
pub enum CopyField {
    Password,
    Username,
    Url,
}

/// How a copy to the clipboard is reported.
#[derive(Debug, Clone, Copy, PartialEq, Eq, Structural)]
pub enum CopyNotice {
    /// "Password copied — clears in 30s", or the wl-clipboard hint.
    Password30,
    /// "Password copied — clears in {timeout}s", or "Clipboard unavailable".
    PasswordTimeout,
    /// "Username copied", or "Clipboard unavailable".
    Username,
    /// "Username copied", or nothing.
    UsernameQuiet,
    /// "URL copied", or nothing.
    Url,
}

/// Where a failure to load the entry list is reported.
#[derive(Debug, Clone, Copy, PartialEq, Eq, Structural)]
pub enum ListFailure {
    /// In the first-run screen's error line.
    FirstRun,
    /// In the unlock screen's error line.
    Locked,
    /// In a toast.
    Toast,
}

/// The terminal interface: configuration, current screen, toast and the
/// request it is waiting on.
pub struct App {
    pub config: KryptonConfig,
    pub state: AppState,
    pub should_quit: bool,
    pub toast: Option<Toast>,
    pub toast_ticks: u8,
    /// Pending confirmation for a destructive action.
    pub confirm_action: Option<ConfirmAction>,
    /// The query whose reply the interface waits for.
    pub pending: Pending,
}

// ── Vocabulary of the contracts ──────────────────────────────────────────

/// The toast is `msg` of the given kind, freshly shown.
pub open spec fn toast_is(a: App, msg: Seq<char>, kind: ToastKind) -> bool {
    &&& a.toast matches Some(t)
    &&& a.toast.unwrap().message@ == msg
    &&& a.toast.unwrap().kind == kind
    &&& a.toast_ticks == 60
}

/// The line `s` reports error `e` after `prefix` (what `format!("{prefix}{e}")`
/// gives; the text of an I/O error is the operating system's).
pub open spec fn error_line(prefix: Seq<char>, e: VaultError, s: Seq<char>) -> bool {
    !(e is Io) ==> s == prefix + error_text(e)
}

/// The toast reports error `e` after `prefix`.
pub open spec fn error_toast(a: App, prefix: Seq<char>, e: VaultError) -> bool {
    &&& a.toast matches Some(t)
    &&& a.toast.unwrap().kind == ToastKind::Error
    &&& error_line(prefix, e, a.toast.unwrap().message@)
    &&& a.toast_ticks == 60
}

/// The command asks for nothing.
pub open spec fn nothing(c: Command) -> bool {
    c.effects@.len() == 0 && c.query is None
}

/// The command only asks the query `q` (compared by shape).
pub open spec fn only_query(c: Command) -> bool {
    c.effects@.len() == 0 && c.query is Some
}

/// Everything but the screen and the pending request is as before.
pub open spec fn same_frame(old: App, new: App) -> bool {
    &&& new.config == old.config
    &&& new.should_quit == old.should_quit
    &&& new.toast == old.toast
    &&& new.toast_ticks == old.toast_ticks
    &&& new.confirm_action == old.confirm_action
}

/// Everything but the screen, the toast and the pending request is as
/// before.
pub open spec fn same_settings(old: App, new: App) -> bool {
    &&& new.config == old.config
    &&& new.should_quit == old.should_quit
    &&& new.confirm_action == old.confirm_action
}

/// Which screen a state shows.
pub open spec fn screen_of(s: AppState) -> Screen {
    match s {
        AppState::FirstRun(_) => Screen::FirstRun,
        AppState::Locked(_) => Screen::Locked,
        AppState::Unlocked(v) => match v {
            UnlockedView::EntryList(_) => Screen::EntryList,
            UnlockedView::EntryDetail(_) => Screen::EntryDetail,
            UnlockedView::EntryEdit(_) => Screen::EntryEdit,
            UnlockedView::Search(_) => Screen::Search,
            UnlockedView::Settings(_) => Screen::Settings,
            UnlockedView::Help(_) => Screen::Help,
        },
    }
}

// ── First run ────────────────────────────────────────────────────────────

/// The first-run screen after action `a` on screen `s`, with command `c`.
pub open spec fn first_run_step(old: App, s: FirstRunState, a: Action, new: App, c: Command) -> bool {
    &&& same_frame(old, new)
    &&& match a {
        Action::CharInput(ch) => {
            &&& nothing(c) && new.pending is Idle
            &&& new.state matches AppState::FirstRun(t)
            &&& t.step == s.step && t.error == s.error
            &&& s.step == FirstRunStep::EnterPassword ==> t.password@ == s.password@.push(ch) && t.confirm == s.confirm
            &&& s.step == FirstRunStep::ConfirmPassword ==> t.confirm@ == s.confirm@.push(ch) && t.password == s.password
        },
        Action::Backspace => {
            &&& nothing(c) && new.pending is Idle
            &&& new.state matches AppState::FirstRun(t)
            &&& t.step == s.step && t.error == s.error
            &&& s.step == FirstRunStep::EnterPassword ==> t.password@ == without_last(s.password@) && t.confirm == s.confirm
            &&& s.step == FirstRunStep::ConfirmPassword ==> t.confirm@ == without_last(s.confirm@) && t.password == s.password
        },
        Action::Submit => if s.step == FirstRunStep::EnterPassword {
            &&& nothing(c) && new.pending is Idle
            &&& new.state matches AppState::FirstRun(t)
            &&& t.password == s.password && t.confirm == s.confirm
            &&& s.password@.len() == 0 ==> (t.step == s.step && (t.error matches Some(m) && m@ == "Password cannot be empty"@))
            &&& s.password@.len() > 0 ==> t.step == FirstRunStep::ConfirmPassword && t.error is None
        } else if s.password@ != s.confirm@ {
            &&& nothing(c) && new.pending is Idle
            &&& new.state matches AppState::FirstRun(t)
            &&& t.step == s.step && t.password == s.password && t.confirm@.len() == 0
            &&& t.error matches Some(m) && m@ == "Passwords do not match"@
        } else {
            &&& c.effects@.len() == 0
            &&& c.query matches Some(Query::CreateVault(pw)) && pw@ == s.password@
            &&& new.pending is CreateVault
            &&& new.state == AppState::FirstRun(s)
        },
        _ => nothing(c) && new.pending is Idle && new.state == AppState::FirstRun(s),
    }
}

// ── Unlock screen ────────────────────────────────────────────────────────

/// The sentence that confirms a vault reset.
pub open spec fn reset_sentence() -> Seq<char> {
    "I accept the risks"@
}

/// One second of a reset countdown on unlock screen `s`: at the last second
/// the vault file is removed and an empty first-run screen shows; before it
/// the count goes down by one and nothing else changes.
pub open spec fn reset_countdown(s: LockedState, seconds: u64, new: App, c: Command) -> bool {
    if seconds <= 1 {
        &&& c.effects@ == seq![Effect::RemoveVaultFile] && c.query is None
        &&& new.pending is Idle
        &&& new.state matches AppState::FirstRun(f)
        &&& new.state->FirstRun_0.step == FirstRunStep::EnterPassword
        &&& new.state->FirstRun_0.password@.len() == 0 && new.state->FirstRun_0.confirm@.len() == 0
        &&& new.state->FirstRun_0.error is None
    } else {
        &&& nothing(c) && new.pending is Idle
        &&& new.state == AppState::Locked(LockedState {
            reset_step: Some(ResetStep::Waiting { seconds: (seconds - 1) as u64 }),
            ..s
        })
    }
}

/// Locking from an unlocked screen: the clipboard is cleared and the
/// service locked, and an empty, hidden unlock screen shows; a pending
/// delete confirmation is dropped.
pub open spec fn locks(old: App, new: App, c: Command) -> bool {
    &&& c.effects@ == seq![Effect::ClearClipboard, Effect::Lock] && c.query is None
    &&& new.pending is Idle
    &&& new.state matches AppState::Locked(l)
    &&& new.state->Locked_0.input@.len() == 0 && new.state->Locked_0.hidden
    &&& new.state->Locked_0.error is None && new.state->Locked_0.reset_step is None
    &&& !new.state->Locked_0.loading
    &&& new.confirm_action is None
    &&& new.config == old.config && new.should_quit == old.should_quit
    &&& new.toast == old.toast && new.toast_ticks == old.toast_ticks
}

/// The unlock screen after action `a` on screen `s`, with command `c`.
pub open spec fn locked_step(old: App, s: LockedState, a: Action, new: App, c: Command) -> bool {
    &&& same_frame(old, new)
    &&& if s.reset_step is Some {
        match a {
            Action::Back => {
                &&& nothing(c) && new.pending is Idle
                &&& new.state matches AppState::Locked(t)
                &&& t.reset_step is None && t.input == s.input && t.hidden == s.hidden && t.error == s.error
            },
            Action::Tick => match s.reset_step {
                Some(ResetStep::Waiting { seconds }) => reset_countdown(s, seconds, new, c),
                _ => nothing(c) && new.pending is Idle && new.state == AppState::Locked(s),
            },
            Action::CharInput(ch) => match s.reset_step {
                Some(ResetStep::TypingConfirm { buffer }) => {
                    &&& nothing(c) && new.pending is Idle
                    &&& new.state matches AppState::Locked(t)
                    &&& t.input == s.input
                    &&& buffer@.push(ch) == reset_sentence() ==> (t.reset_step matches Some(ResetStep::Waiting { seconds }) && seconds == 10)
                    &&& buffer@.push(ch) != reset_sentence() ==> (t.reset_step matches Some(ResetStep::TypingConfirm { buffer: b }) && b@ == buffer@.push(ch))
                },
                _ => nothing(c) && new.pending is Idle && new.state == AppState::Locked(s),
            },
            Action::Backspace => match s.reset_step {
                Some(ResetStep::TypingConfirm { buffer }) => {
                    &&& nothing(c) && new.pending is Idle
                    &&& new.state matches AppState::Locked(t)
                    &&& t.input == s.input
                    &&& t.reset_step matches Some(ResetStep::TypingConfirm { buffer: b }) && b@ == without_last(buffer@)
                },
                _ => nothing(c) && new.pending is Idle && new.state == AppState::Locked(s),
            },
            _ => nothing(c) && new.pending is Idle && new.state == AppState::Locked(s),
        }
    } else {
        match a {
            Action::StartReset => {
                &&& nothing(c) && new.pending is Idle
                &&& new.state matches AppState::Locked(t)
                &&& t.input == s.input && t.hidden == s.hidden && t.error == s.error
                &&& t.reset_step matches Some(ResetStep::TypingConfirm { buffer }) && buffer@.len() == 0
            },
            Action::CharInput(ch) => {
                &&& nothing(c) && new.pending is Idle
                &&& new.state matches AppState::Locked(t)
                &&& t.input@ == s.input@.push(ch) && t.hidden == s.hidden && t.error == s.error && t.reset_step is None
            },
            Action::Backspace => {
                &&& nothing(c) && new.pending is Idle
                &&& new.state matches AppState::Locked(t)
                &&& t.input@ == without_last(s.input@) && t.hidden == s.hidden && t.error == s.error && t.reset_step is None
            },
            Action::ToggleVisibility => {
                &&& nothing(c) && new.pending is Idle
                &&& new.state matches AppState::Locked(t)
                &&& t.input == s.input && t.hidden == !s.hidden && t.error == s.error && t.reset_step is None
            },
            Action::Submit => {
                &&& c.effects@.len() == 0
                &&& c.query matches Some(Query::Unlock(pw)) && pw@ == s.input@
                &&& new.pending is Unlock
                &&& new.state == AppState::Locked(s)
            },
            _ => nothing(c) && new.pending is Idle && new.state == AppState::Locked(s),
        }
    }
}

// ── Entry list ───────────────────────────────────────────────────────────

/// The list screen shows `entries` with `selected` selected, the table
/// where it was, and the preview as given.
pub open spec fn list_shows(st: AppState, s: EntryListState, selected: usize, preview: Option<Entry>) -> bool {
    &&& st matches AppState::Unlocked(UnlockedView::EntryList(l))
    &&& st->Unlocked_0->EntryList_0.entries == s.entries
    &&& st->Unlocked_0->EntryList_0.selected == selected
    &&& st->Unlocked_0->EntryList_0.table_rect == s.table_rect
    &&& st->Unlocked_0->EntryList_0.preview_entry == preview
}

/// After moving the selection of list `s` to `sel`: the preview is
/// reloaded for the entry at `sel`, or cleared when there is none.
pub open spec fn list_moved(s: EntryListState, sel: usize, new: App, c: Command) -> bool {
    if sel < s.entries@.len() {
        &&& list_shows(new.state, s, sel, s.preview_entry)
        &&& c.effects@.len() == 0
        &&& c.query matches Some(Query::GetEntry(id)) && id == s.entries@[sel as int].id
        &&& new.pending is Preview
    } else {
        &&& list_shows(new.state, s, sel, None)
        &&& nothing(c) && new.pending is Idle
    }
}

/// The command loads the selected entry of `entries` and waits as `p`
/// says; with no selected entry nothing happens.
pub open spec fn load_selected(entries: Seq<EntrySummary>, sel: usize, old_state: AppState, new: App, c: Command, p: Pending) -> bool {
    &&& new.state == old_state
    &&& sel < entries.len() ==> (c.effects@.len() == 0 && (c.query matches Some(Query::GetEntry(id)) && id == entries[sel as int].id) && new.pending == p)
    &&& sel >= entries.len() ==> nothing(c) && new.pending is Idle
}

/// The request to delete entry `id`, waiting to continue as `after` says.
pub open spec fn deletes(id: EntryId, after: AfterChange, new: App, c: Command) -> bool {
    &&& c.effects@.len() == 0
    &&& c.query matches Some(Query::DeleteEntry(d)) && d == id
    &&& new.pending == Pending::Deleted(after)
}

/// Deleting entry `id` from a screen in state `st`: at once when no
/// confirmation is configured; otherwise on a second press for the same
/// entry, the first press arming the confirmation with a toast.
pub open spec fn delete_step(old: App, id: EntryId, after: AfterChange, st: AppState, new: App, c: Command) -> bool {
    &&& new.state == st && new.config == old.config && new.should_quit == old.should_quit
    &&& if !old.config.confirm_before_delete {
        deletes(id, after, new, c) && new.toast == old.toast && new.toast_ticks == old.toast_ticks
            && new.confirm_action == old.confirm_action
    } else if old.confirm_action == Some(ConfirmAction::DeleteEntry(id)) {
        deletes(id, after, new, c) && new.toast == old.toast && new.toast_ticks == old.toast_ticks
            && new.confirm_action is None
    } else {
        &&& nothing(c) && new.pending is Idle
        &&& new.confirm_action == Some(ConfirmAction::DeleteEntry(id))
        &&& toast_is(new, "Press d again to confirm delete, Esc to cancel"@, ToastKind::Info)
    }
}

/// The help screen over the screen `v`.
pub open spec fn shows_help(st: AppState, v: UnlockedView) -> bool {
    st matches AppState::Unlocked(UnlockedView::Help(b)) && *b == v
}

/// The request to load the entry list for the list screen, reporting a
/// failure in a toast.
pub open spec fn pops_to_list(old_state: AppState, new: App, c: Command) -> bool {
    &&& c.effects@.len() == 0
    &&& c.query matches Some(Query::ListEntries)
    &&& new.pending == Pending::LoadList(ListFailure::Toast)
    &&& new.state == old_state
}

/// The editor `t` is empty, for a new entry.
pub open spec fn empty_editor(t: EntryEditState) -> bool {
    &&& t.id is None
    &&& t.title@.len() == 0 && t.username@.len() == 0 && t.password@.len() == 0
    &&& t.url@.len() == 0 && t.notes@.len() == 0 && t.tags@.len() == 0
    &&& t.active_field == 0 && !t.dirty
    &&& t.existing_password@.len() == 0 && t.initial_created_at == 0
}

/// The list screen after action `a` on list `s`, with command `c`.
pub open spec fn list_step(old: App, s: EntryListState, a: Action, new: App, c: Command) -> bool {
    let here = AppState::Unlocked(UnlockedView::EntryList(s));
    let len = s.entries@.len();
    let sel = s.selected;
    &&& new.config == old.config && new.should_quit == old.should_quit
    &&& a != Action::DeleteEntry ==> new.confirm_action is None
    &&& a != Action::DeleteEntry ==> new.toast == old.toast && new.toast_ticks == old.toast_ticks
    &&& match a {
        Action::Up => list_moved(s, if sel > 0 { (sel - 1) as usize } else { sel }, new, c),
        Action::Down => list_moved(s, if sel + 1 < len { (sel + 1) as usize } else { sel }, new, c),
        Action::PageUp => list_moved(s, if sel >= 10 { (sel - 10) as usize } else { 0 }, new, c),
        Action::PageDown => {
            let last: int = if len > 0 { len - 1 } else { 0 };
            list_moved(s, (if sel + 10 < last { sel + 10 } else { last }) as usize, new, c)
        },
        Action::Click(_, row) => match row_hit(s.table_rect, row) {
            Some(idx) => if idx < len {
                list_moved(s, idx as usize, new, c)
            } else {
                nothing(c) && new.pending is Idle && new.state == here
            },
            None => nothing(c) && new.pending is Idle && new.state == here,
        },
        Action::Select => load_selected(s.entries@, sel, here, new, c, Pending::OpenDetail),
        Action::EditEntry => load_selected(s.entries@, sel, here, new, c, Pending::OpenEdit { toast_errors: true }),
        Action::CopyPassword => load_selected(s.entries@, sel, here, new, c, Pending::CopyFrom(CopyField::Password, CopyNotice::Password30)),
        Action::CopyUsername => load_selected(s.entries@, sel, here, new, c, Pending::CopyFrom(CopyField::Username, CopyNotice::Username)),
        Action::CopyUrl => load_selected(s.entries@, sel, here, new, c, Pending::CopyFrom(CopyField::Url, CopyNotice::Url)),
        Action::DuplicateEntry => load_selected(s.entries@, sel, here, new, c, Pending::DuplicateLoad(AfterChange::Reload)),
        Action::NewEntry => {
            &&& nothing(c) && new.pending is Idle
            &&& new.state matches AppState::Unlocked(UnlockedView::EntryEdit(e))
            &&& empty_editor(new.state->Unlocked_0->EntryEdit_0)
        },
        Action::DeleteEntry => if sel < len {
            delete_step(old, s.entries@[sel as int].id, AfterChange::Reload, here, new, c)
        } else {
            &&& nothing(c) && new.pending is Idle && new.state == here
            &&& new.confirm_action == old.confirm_action && new.toast == old.toast && new.toast_ticks == old.toast_ticks
        },
        Action::OpenSettings => {
            &&& nothing(c) && new.pending is Idle
            &&& new.state matches AppState::Unlocked(UnlockedView::Settings(t))
            &&& new.state->Unlocked_0->Settings_0.config@ == old.config@
            &&& new.state->Unlocked_0->Settings_0.selected == 0
            &&& !new.state->Unlocked_0->Settings_0.editing_number
            &&& new.state->Unlocked_0->Settings_0.number_buffer@.len() == 0
        },
        Action::StartSearch => {
            &&& nothing(c) && new.pending is Idle
            &&& new.state matches AppState::Unlocked(UnlockedView::Search(q))
            &&& new.state->Unlocked_0->Search_0.query@.len() == 0
            &&& new.state->Unlocked_0->Search_0.results@.len() == 0
            &&& new.state->Unlocked_0->Search_0.selected == 0
        },
        Action::Lock => {
            &&& c.effects@ == seq![Effect::ClearClipboard, Effect::Lock] && c.query is None
            &&& new.pending is Idle
            &&& new.state matches AppState::Locked(l)
            &&& new.state->Locked_0.input@.len() == 0 && new.state->Locked_0.hidden
            &&& new.state->Locked_0.error is None && new.state->Locked_0.reset_step is None
        },
        Action::Help => nothing(c) && new.pending is Idle && shows_help(new.state, UnlockedView::EntryList(s)),
        Action::Export => c.effects@.len() == 0 && (c.query matches Some(Query::Export)) && new.pending is Export && new.state == here,
        Action::Import => c.effects@.len() == 0 && (c.query matches Some(Query::Import)) && new.pending is Import && new.state == here,
        _ => nothing(c) && new.pending is Idle && new.state == here,
    }
}

// ── Entry detail ─────────────────────────────────────────────────────────

/// The text of an optional field, empty when absent.
pub open spec fn opt_text(o: Option<String>) -> Seq<char> {
    match o {
        Some(s) => s@,
        None => Seq::empty(),
    }
}

/// The editor `t` is opened on the stored entry `e`: its fields filled in,
/// the password field left empty (the stored password is kept unless a
/// new one is typed), the first field active.
pub open spec fn edit_of(e: Entry, t: EntryEditState) -> bool {
    &&& t.id == Some(e.id)
    &&& t.title@ == e.title@
    &&& t.username@ == opt_text(e.username)
    &&& t.password@.len() == 0
    &&& t.url@ == opt_text(e.url)
    &&& t.notes@ == opt_text(e.notes)
    &&& t.tags@.len() == 0
    &&& t.active_field == 0
    &&& !t.dirty
    &&& t.existing_password@ == e.password@
    &&& t.initial_created_at == e.created_at
}

/// The request to copy `text` to the clipboard, reported as `notice` says.
pub open spec fn copies(text: Seq<char>, notice: CopyNotice, st: AppState, new: App, c: Command) -> bool {
    &&& c.effects@.len() == 0
    &&& c.query matches Some(Query::Copy(t)) && t@ == text
    &&& new.pending == Pending::Copied(notice)
    &&& new.state == st
}

/// The detail screen after action `a` on screen `d`, with command `c`.
pub open spec fn detail_step(old: App, d: EntryDetailState, a: Action, new: App, c: Command) -> bool {
    let here = AppState::Unlocked(UnlockedView::EntryDetail(d));
    &&& new.config == old.config && new.should_quit == old.should_quit
    &&& a != Action::DeleteEntry ==> new.confirm_action == old.confirm_action && new.toast == old.toast
        && new.toast_ticks == old.toast_ticks
    &&& match a {
        Action::Back => pops_to_list(here, new, c),
        Action::ToggleVisibility => {
            &&& nothing(c) && new.pending is Idle
            &&& new.state == AppState::Unlocked(UnlockedView::EntryDetail(EntryDetailState { show_password: !d.show_password, ..d }))
        },
        Action::EditEntry => {
            &&& nothing(c) && new.pending is Idle
            &&& new.state matches AppState::Unlocked(UnlockedView::EntryEdit(t))
            &&& edit_of(d.entry, new.state->Unlocked_0->EntryEdit_0)
        },
        Action::CopyPassword => copies(d.entry.password@, CopyNotice::Password30, here, new, c),
        Action::CopyUsername => match d.entry.username {
            Some(u) => copies(u@, CopyNotice::Username, here, new, c),
            None => nothing(c) && new.pending is Idle && new.state == here,
        },
        Action::CopyUrl => match d.entry.url {
            Some(u) => copies(u@, CopyNotice::Url, here, new, c),
            None => nothing(c) && new.pending is Idle && new.state == here,
        },
        Action::Help => nothing(c) && new.pending is Idle && shows_help(new.state, UnlockedView::EntryDetail(d)),
        Action::DeleteEntry => delete_step(old, d.entry.id, AfterChange::PopToList, here, new, c),
        Action::DuplicateEntry => {
            &&& c.effects@.len() == 0 && (c.query matches Some(Query::Stamp))
            &&& new.pending matches Pending::DuplicateStamp(e, after)
            &&& new.pending->DuplicateStamp_0@ == d.entry@ && new.pending->DuplicateStamp_1 == AfterChange::PopToList
            &&& new.state == here
        },
        _ => nothing(c) && new.pending is Idle && new.state == here,
    }
}

// ── Entry editor ─────────────────────────────────────────────────────────

/// The generator settings the configuration asks for.
pub open spec fn generator_config_of(c: KryptonConfig) -> crate::ext::GeneratorConfig {
    crate::ext::GeneratorConfig {
        length: c.password_length,
        uppercase: c.password_uppercase,
        lowercase: c.password_lowercase,
        digits: c.password_digits,
        symbols: c.password_symbols,
    }
}

/// The editor `t` is `e` with the text of field `f` (0 title, 1 username,
/// 2 password, 3 url, 4 notes) transformed by `change`, and marked dirty;
/// other field numbers change nothing but the mark.
pub open spec fn edited(e: EntryEditState, f: usize, t: EntryEditState, change: spec_fn(Seq<char>) -> Seq<char>) -> bool {
    &&& t.dirty
    &&& t.id == e.id && t.tags == e.tags && t.active_field == e.active_field
    &&& t.existing_password == e.existing_password && t.initial_created_at == e.initial_created_at
    &&& if f == 0 { t.title@ == change(e.title@) } else { t.title == e.title }
    &&& if f == 1 { t.username@ == change(e.username@) } else { t.username == e.username }
    &&& if f == 2 { t.password@ == change(e.password@) } else { t.password == e.password }
    &&& if f == 3 { t.url@ == change(e.url@) } else { t.url == e.url }
    &&& if f == 4 { t.notes@ == change(e.notes@) } else { t.notes == e.notes }
}

/// The editor after action `a` on editor `e`, with command `c`.
pub open spec fn edit_step(old: App, e: EntryEditState, a: Action, new: App, c: Command) -> bool {
    let here = AppState::Unlocked(UnlockedView::EntryEdit(e));
    &&& new.config == old.config && new.should_quit == old.should_quit && new.confirm_action == old.confirm_action
    &&& a != Action::SaveEntry ==> new.toast == old.toast && new.toast_ticks == old.toast_ticks
    &&& match a {
        Action::Back => pops_to_list(here, new, c),
        Action::NextField => {
            &&& nothing(c) && new.pending is Idle
            &&& new.state == AppState::Unlocked(UnlockedView::EntryEdit(EntryEditState {
                active_field: if e.active_field < 4 { (e.active_field + 1) as usize } else { 4 },
                ..e
            }))
        },
        Action::PrevField => {
            &&& nothing(c) && new.pending is Idle
            &&& new.state == AppState::Unlocked(UnlockedView::EntryEdit(EntryEditState {
                active_field: if e.active_field > 0 { (e.active_field - 1) as usize } else { 0 },
                ..e
            }))
        },
        Action::CharInput(ch) => {
            &&& nothing(c) && new.pending is Idle
            &&& new.state matches AppState::Unlocked(UnlockedView::EntryEdit(t))
            &&& edited(e, e.active_field, new.state->Unlocked_0->EntryEdit_0, |s: Seq<char>| s.push(ch))
        },
        Action::Backspace => {
            &&& nothing(c) && new.pending is Idle
            &&& new.state matches AppState::Unlocked(UnlockedView::EntryEdit(t))
            &&& edited(e, e.active_field, new.state->Unlocked_0->EntryEdit_0, |s: Seq<char>| without_last(s))
        },
        Action::Help => nothing(c) && new.pending is Idle && shows_help(new.state, UnlockedView::EntryEdit(e)),
        Action::GeneratePassword => if e.active_field == 2 {
            &&& c.effects@.len() == 0
            &&& c.query matches Some(Query::Generate(g)) && g == generator_config_of(old.config)
            &&& new.pending is Generate && new.state == here
        } else {
            nothing(c) && new.pending is Idle && new.state == here
        },
        Action::SaveEntry => if crate::text::blank(e.title@) {
            &&& nothing(c) && new.pending is Idle && new.state == here
            &&& toast_is(new, "Title is required"@, ToastKind::Error)
        } else {
            &&& c.effects@.len() == 0 && (c.query matches Some(Query::Stamp))
            &&& new.pending is SaveStamp && new.state == here
            &&& new.toast == old.toast && new.toast_ticks == old.toast_ticks
        },
        _ => nothing(c) && new.pending is Idle && new.state == here,
    }
}

// ── Search ───────────────────────────────────────────────────────────────

/// The search screen after action `a` on screen `q`, with command `c`.
pub open spec fn search_step(old: App, q: SearchState, a: Action, new: App, c: Command) -> bool {
    let here = AppState::Unlocked(UnlockedView::Search(q));
    let len = q.results@.len();
    let sel = q.selected;
    &&& new.config == old.config && new.should_quit == old.should_quit
    &&& a != Action::DeleteEntry ==> new.confirm_action == old.confirm_action && new.toast == old.toast
        && new.toast_ticks == old.toast_ticks
    &&& match a {
        Action::Back => pops_to_list(here, new, c),
        Action::Up => nothing(c) && new.pending is Idle && new.state == AppState::Unlocked(
            UnlockedView::Search(SearchState { selected: if sel > 0 { (sel - 1) as usize } else { sel }, ..q }),
        ),
        Action::Down => nothing(c) && new.pending is Idle && new.state == AppState::Unlocked(
            UnlockedView::Search(SearchState { selected: if sel + 1 < len { (sel + 1) as usize } else { sel }, ..q }),
        ),
        Action::CharInput(ch) => {
            &&& new.state matches AppState::Unlocked(UnlockedView::Search(t))
            &&& new.state->Unlocked_0->Search_0.query@ == q.query@.push(ch)
            &&& new.state->Unlocked_0->Search_0.results == q.results
            &&& new.state->Unlocked_0->Search_0.selected == q.selected
            &&& new.state->Unlocked_0->Search_0.result_rect == q.result_rect
            &&& c.effects@.len() == 0
            &&& c.query matches Some(Query::Search(s)) && s@ == q.query@.push(ch)
            &&& new.pending is SearchResults
        },
        Action::Backspace => {
            &&& new.state matches AppState::Unlocked(UnlockedView::Search(t))
            &&& new.state->Unlocked_0->Search_0.query@ == without_last(q.query@)
            &&& new.state->Unlocked_0->Search_0.result_rect == q.result_rect
            &&& if without_last(q.query@).len() == 0 {
                &&& nothing(c) && new.pending is Idle
                &&& new.state->Unlocked_0->Search_0.results@.len() == 0
                &&& new.state->Unlocked_0->Search_0.selected == 0
            } else {
                &&& new.state->Unlocked_0->Search_0.results == q.results
                &&& new.state->Unlocked_0->Search_0.selected == q.selected
                &&& c.effects@.len() == 0
                &&& c.query matches Some(Query::Search(s)) && s@ == without_last(q.query@)
                &&& new.pending is SearchResults
            }
        },
        Action::Click(_, row) => nothing(c) && new.pending is Idle && match row_hit(q.result_rect, row) {
            Some(idx) => if idx < len {
                new.state == AppState::Unlocked(UnlockedView::Search(SearchState { selected: idx as usize, ..q }))
            } else {
                new.state == here
            },
            None => new.state == here,
        },
        Action::Help => nothing(c) && new.pending is Idle && shows_help(new.state, UnlockedView::Search(q)),
        Action::Select => load_selected(q.results@, sel, here, new, c, Pending::OpenDetail),
        Action::EditEntry => load_selected(q.results@, sel, here, new, c, Pending::OpenEdit { toast_errors: false }),
        Action::CopyPassword => load_selected(q.results@, sel, here, new, c, Pending::CopyFrom(CopyField::Password, CopyNotice::PasswordTimeout)),
        Action::CopyUsername => load_selected(q.results@, sel, here, new, c, Pending::CopyFrom(CopyField::Username, CopyNotice::UsernameQuiet)),
        Action::DuplicateEntry => load_selected(q.results@, sel, here, new, c, Pending::DuplicateLoad(AfterChange::PopToList)),
        Action::DeleteEntry => if sel < len {
            delete_step(old, q.results@[sel as int].id, AfterChange::PopToList, here, new, c)
        } else {
            &&& nothing(c) && new.pending is Idle && new.state == here
            &&& new.confirm_action == old.confirm_action && new.toast == old.toast && new.toast_ticks == old.toast_ticks
        },
        _ => nothing(c) && new.pending is Idle && new.state == here,
    }
}

// ── Settings ─────────────────────────────────────────────────────────────

/// The settings screen shows `st` with its configuration, selection,
/// editing mode and buffer as given.
pub open spec fn settings_shows(s: AppState, st: SettingsState, config: crate::config::ConfigView, selected: usize, editing: bool, buffer: Seq<char>) -> bool {
    &&& s matches AppState::Unlocked(UnlockedView::Settings(t))
    &&& s->Unlocked_0->Settings_0.config@ == config
    &&& s->Unlocked_0->Settings_0.selected == selected
    &&& s->Unlocked_0->Settings_0.editing_number == editing
    &&& s->Unlocked_0->Settings_0.number_buffer@ == buffer
}

/// The settings screen after action `a` on screen `st`, with command `c`.
pub open spec fn settings_step(old: App, st: SettingsState, a: Action, new: App, c: Command) -> bool {
    let here = AppState::Unlocked(UnlockedView::Settings(st));
    let cfg = st.config@;
    let sel = st.selected;
    let ed = st.editing_number;
    let buf = st.number_buffer@;
    &&& same_frame(old, new)
    &&& match a {
        Action::Back => if ed {
            nothing(c) && new.pending is Idle && settings_shows(new.state, st, cfg, sel, false, Seq::empty())
        } else {
            pops_to_list(here, new, c)
        },
        Action::Up => nothing(c) && new.pending is Idle && settings_shows(
            new.state, st, cfg, if !ed && sel > 0 { (sel - 1) as usize } else { sel }, ed, buf),
        Action::Down => nothing(c) && new.pending is Idle && settings_shows(
            new.state, st, cfg, if !ed && sel + 1 < 12 { (sel + 1) as usize } else { sel }, ed, buf),
        Action::ToggleSetting => nothing(c) && new.pending is Idle && if ed {
            settings_shows(new.state, st, crate::settings::committed(cfg, sel, buf), sel, false, Seq::empty())
        } else if sel == 1 {
            settings_shows(new.state, st, cfg, sel, true, crate::text::decimal(cfg.clipboard_timeout_secs as nat))
        } else if sel == 3 {
            settings_shows(new.state, st, cfg, sel, true, crate::text::decimal(cfg.password_length as nat))
        } else {
            settings_shows(new.state, st, crate::settings::toggled(cfg, sel as int), sel, ed, buf)
        },
        Action::CharInput(ch) => nothing(c) && new.pending is Idle && settings_shows(
            new.state, st, cfg, sel, ed, if ed { buf.push(ch) } else { buf }),
        Action::Backspace => nothing(c) && new.pending is Idle && settings_shows(
            new.state, st, cfg, sel, ed, if ed { without_last(buf) } else { buf }),
        Action::Help => nothing(c) && new.pending is Idle && shows_help(new.state, UnlockedView::Settings(st)),
        Action::SaveEntry => {
            let saved = if ed { crate::settings::committed(cfg, sel, buf) } else { cfg };
            &&& settings_shows(new.state, st, saved, sel, false, if ed { Seq::empty() } else { buf })
            &&& c.effects@.len() == 0
            &&& c.query matches Some(Query::SaveConfig(k)) && k@ == saved
            &&& new.pending is SaveSettings
        },
        _ => nothing(c) && new.pending is Idle && new.state == here,
    }
}

// ── Help ─────────────────────────────────────────────────────────────────

/// The help screen after action `a`: back returns to the screen it was
/// opened from.
pub open spec fn help_step(old: App, prev: UnlockedView, a: Action, new: App, c: Command) -> bool {
    &&& same_frame(old, new)
    &&& nothing(c) && new.pending is Idle
    &&& a == Action::Back ==> new.state == AppState::Unlocked(prev)
    &&& a != Action::Back ==> new.state == AppState::Unlocked(UnlockedView::Help(Box::new(prev)))
}

// ── Replies ──────────────────────────────────────────────────────────────

/// Nothing happens: no request, nothing pending, same screen and toast.
pub open spec fn unchanged(old: App, new: App, c: Command) -> bool {
    &&& nothing(c) && new.pending is Idle
    &&& new.state == old.state
    &&& new.toast == old.toast && new.toast_ticks == old.toast_ticks
}

/// The entry list is asked for, to continue as `after` says.
pub open spec fn continues(after: AfterChange, st: AppState, new: App, c: Command) -> bool {
    &&& c.effects@.len() == 0
    &&& c.query matches Some(Query::ListEntries)
    &&& new.state == st
    &&& after == AfterChange::Reload ==> new.pending is Reload
    &&& after == AfterChange::PopToList ==> new.pending == Pending::LoadList(ListFailure::Toast)
}

/// The value of an optional field of the editor: absent when empty.
pub open spec fn field_value(s: Seq<char>) -> Option<Seq<char>> {
    if s.len() == 0 {
        None
    } else {
        Some(s)
    }
}

/// The entry the editor `e` saves at time `now`, with `fresh` as the
/// identifier of a new entry: an empty password field keeps the stored
/// password of an existing entry; a new entry is created at `now`.
pub open spec fn saved_entry(e: EntryEditState, now: i64, fresh: EntryId, d: Entry) -> bool {
    let is_new = e.id is None;
    &&& d.id == (match e.id {
        Some(id) => id,
        None => fresh,
    })
    &&& d.title@ == e.title@
    &&& d.username.deep_view() == field_value(e.username@)
    &&& d.password@ == (if e.password@.len() == 0 && !is_new { e.existing_password@ } else { e.password@ })
    &&& d.url.deep_view() == field_value(e.url@)
    &&& d.notes.deep_view() == field_value(e.notes@)
    &&& d.tags@.len() == 0
    &&& d.custom_fields@.len() == 0
    &&& d.created_at == (if is_new { now } else { e.initial_created_at })
    &&& d.updated_at == now
}

/// The duplicate `d` of entry `e` stamped with `now` and `fresh`.
pub open spec fn duplicate_of(e: Entry, now: i64, fresh: EntryId, d: Entry) -> bool {
    d@ == crate::models::EntryView {
        id: fresh,
        title: e.title@ + " (copy)"@,
        created_at: now,
        updated_at: now,
        ..e@
    }
}

/// The toast after a copy to the clipboard, per notice and outcome.
pub open spec fn copy_reported(old: App, notice: CopyNotice, ok: bool, new: App) -> bool {
    match notice {
        CopyNotice::Password30 => if ok {
            toast_is(new, "Password copied \u{2014} clears in 30s"@, ToastKind::Success)
        } else {
            toast_is(new, "Clipboard unavailable (is wl-clipboard installed?)"@, ToastKind::Error)
        },
        CopyNotice::PasswordTimeout => if ok {
            toast_is(
                new,
                "Password copied \u{2014} clears in "@ + crate::text::decimal(old.config.clipboard_timeout_secs as nat) + "s"@,
                ToastKind::Success,
            )
        } else {
            toast_is(new, "Clipboard unavailable"@, ToastKind::Error)
        },
        CopyNotice::Username => if ok {
            toast_is(new, "Username copied"@, ToastKind::Success)
        } else {
            toast_is(new, "Clipboard unavailable"@, ToastKind::Error)
        },
        CopyNotice::UsernameQuiet => if ok {
            toast_is(new, "Username copied"@, ToastKind::Success)
        } else {
            new.toast == old.toast && new.toast_ticks == old.toast_ticks
        },
        CopyNotice::Url => if ok {
            toast_is(new, "URL copied"@, ToastKind::Success)
        } else {
            new.toast == old.toast && new.toast_ticks == old.toast_ticks
        },
    }
}

/// The text of field `f` of entry `e`, when it has one.
pub open spec fn field_text(e: Entry, f: CopyField) -> Option<Seq<char>> {
    match f {
        CopyField::Password => Some(e.password@),
        CopyField::Username => e.username.deep_view(),
        CopyField::Url => e.url.deep_view(),
    }
}

/// The next entry of an import is stored.
pub open spec fn stores_next(rest: Seq<Entry>, count: usize, st: AppState, new: App, c: Command) -> bool {
    &&& rest.len() > 0
    &&& c.effects@.len() == 0
    &&& c.query matches Some(Query::CreateEntry(e)) && e == rest[0]
    &&& new.pending matches Pending::ImportNext { rest: r, count: n }
    &&& new.pending->rest@ == rest.drop_first() && new.pending->count == count
    &&& new.state == st
}

/// An import of `count` entries is reported and the list refreshed.
pub open spec fn import_finished(count: usize, st: AppState, new: App, c: Command) -> bool {
    &&& toast_is(new, "Imported "@ + crate::text::decimal(count as nat) + " entries"@, ToastKind::Success)
    &&& continues(AfterChange::Reload, st, new, c)
}

/// The interface after reply `rep` while waiting as `old.pending` says.
pub open spec fn resume_step(old: App, rep: Reply, new: App, c: Command) -> bool {
    let st = old.state;
    &&& new.should_quit == old.should_quit && new.confirm_action == old.confirm_action
    &&& !(old.pending is SaveSettings) ==> new.config == old.config
    &&& match old.pending {
        Pending::CreateVault => match rep {
            Reply::Done(Ok(())) => {
                &&& c.effects@.len() == 0 && (c.query matches Some(Query::ListEntries))
                &&& new.pending == Pending::LoadList(ListFailure::FirstRun)
                &&& new.state == st && new.toast == old.toast && new.toast_ticks == old.toast_ticks
            },
            Reply::Done(Err(e)) => match st {
                AppState::FirstRun(s) => {
                    &&& nothing(c) && new.pending is Idle && new.toast == old.toast && new.toast_ticks == old.toast_ticks
                    &&& new.state matches AppState::FirstRun(t)
                    &&& new.state->FirstRun_0.step == s.step && new.state->FirstRun_0.password == s.password
                    &&& new.state->FirstRun_0.confirm == s.confirm
                    &&& new.state->FirstRun_0.error matches Some(m) && error_line("Failed to create vault: "@, e, m@)
                },
                _ => unchanged(old, new, c),
            },
            _ => unchanged(old, new, c),
        },
        Pending::Unlock => match rep {
            Reply::Done(Ok(())) => {
                &&& c.effects@.len() == 0 && (c.query matches Some(Query::ListEntries))
                &&& new.pending == Pending::LoadList(ListFailure::Locked)
                &&& new.state == st && new.toast == old.toast && new.toast_ticks == old.toast_ticks
            },
            Reply::Done(Err(_)) => match st {
                AppState::Locked(s) => {
                    &&& nothing(c) && new.pending is Idle && new.toast == old.toast && new.toast_ticks == old.toast_ticks
                    &&& new.state matches AppState::Locked(t)
                    &&& new.state->Locked_0.input@.len() == 0 && new.state->Locked_0.hidden == s.hidden
                    &&& new.state->Locked_0.reset_step == s.reset_step
                    &&& new.state->Locked_0.error matches Some(m) && m@ == "Wrong master password"@
                },
                _ => unchanged(old, new, c),
            },
            _ => unchanged(old, new, c),
        },
        Pending::LoadList(f) => match rep {
            Reply::Entries(Ok(v)) => if v@.len() > 0 {
                &&& c.effects@.len() == 0
                &&& c.query matches Some(Query::GetEntry(id)) && id == v@[0].id
                &&& new.pending == Pending::LoadPreview(v)
                &&& new.state == st && new.toast == old.toast && new.toast_ticks == old.toast_ticks
            } else {
                &&& nothing(c) && new.pending is Idle && new.toast == old.toast && new.toast_ticks == old.toast_ticks
                &&& new.state == AppState::Unlocked(UnlockedView::EntryList(EntryListState {
                    entries: v,
                    selected: 0,
                    table_rect: Rect { x: 0, y: 0, width: 0, height: 0 },
                    preview_entry: None,
                }))
            },
            Reply::Entries(Err(e)) => {
                &&& nothing(c) && new.pending is Idle
                &&& match (f, st) {
                    (ListFailure::FirstRun, AppState::FirstRun(s)) => {
                        &&& new.toast == old.toast && new.toast_ticks == old.toast_ticks
                        &&& new.state matches AppState::FirstRun(t)
                        &&& new.state->FirstRun_0.step == s.step && new.state->FirstRun_0.password == s.password
                        &&& new.state->FirstRun_0.confirm == s.confirm
                        &&& new.state->FirstRun_0.error matches Some(m) && error_line("Failed to load entries: "@, e, m@)
                    },
                    (ListFailure::Locked, AppState::Locked(s)) => {
                        &&& new.toast == old.toast && new.toast_ticks == old.toast_ticks
                        &&& new.state matches AppState::Locked(t)
                        &&& new.state->Locked_0.input == s.input && new.state->Locked_0.hidden == s.hidden
                        &&& new.state->Locked_0.reset_step == s.reset_step
                        &&& new.state->Locked_0.error matches Some(m) && error_line("Failed to load entries: "@, e, m@)
                    },
                    (ListFailure::Toast, _) => new.state == st && error_toast(new, "Error loading entries: "@, e),
                    _ => new.state == st && new.toast == old.toast && new.toast_ticks == old.toast_ticks,
                }
            },
            _ => unchanged(old, new, c),
        },
        Pending::LoadPreview(v) => match rep {
            Reply::Loaded(r) => {
                &&& nothing(c) && new.pending is Idle && new.toast == old.toast && new.toast_ticks == old.toast_ticks
                &&& new.state == AppState::Unlocked(UnlockedView::EntryList(EntryListState {
                    entries: v,
                    selected: 0,
                    table_rect: Rect { x: 0, y: 0, width: 0, height: 0 },
                    preview_entry: match r {
                        Ok(e) => Some(e),
                        Err(_) => None,
                    },
                }))
            },
            _ => unchanged(old, new, c),
        },
        Pending::Preview => match (rep, st) {
            (Reply::Loaded(r), AppState::Unlocked(UnlockedView::EntryList(l))) => {
                &&& nothing(c) && new.pending is Idle && new.toast == old.toast && new.toast_ticks == old.toast_ticks
                &&& new.state == AppState::Unlocked(UnlockedView::EntryList(EntryListState {
                    preview_entry: match r {
                        Ok(e) => Some(e),
                        Err(_) => None,
                    },
                    ..l
                }))
            },
            _ => unchanged(old, new, c),
        },
        Pending::OpenDetail => match rep {
            Reply::Loaded(Ok(e)) => {
                &&& nothing(c) && new.pending is Idle && new.toast == old.toast && new.toast_ticks == old.toast_ticks
                &&& new.state == AppState::Unlocked(UnlockedView::EntryDetail(EntryDetailState { entry: e, show_password: false }))
            },
            Reply::Loaded(Err(e)) => nothing(c) && new.pending is Idle && new.state == st && error_toast(new, "Error: "@, e),
            _ => unchanged(old, new, c),
        },
        Pending::OpenEdit { toast_errors } => match rep {
            Reply::Loaded(Ok(e)) => {
                &&& nothing(c) && new.pending is Idle && new.toast == old.toast && new.toast_ticks == old.toast_ticks
                &&& new.state matches AppState::Unlocked(UnlockedView::EntryEdit(t))
                &&& edit_of(e, new.state->Unlocked_0->EntryEdit_0)
            },
            Reply::Loaded(Err(e)) => if toast_errors {
                nothing(c) && new.pending is Idle && new.state == st && error_toast(new, "Error: "@, e)
            } else {
                unchanged(old, new, c)
            },
            _ => unchanged(old, new, c),
        },
        Pending::Deleted(after) | Pending::Duplicated(after) => match rep {
            Reply::Done(Ok(())) => {
                &&& old.pending is Deleted ==> toast_is(new, "Entry deleted"@, ToastKind::Success)
                &&& old.pending is Duplicated ==> toast_is(new, "Entry duplicated"@, ToastKind::Success)
                &&& continues(after, st, new, c)
            },
            Reply::Done(Err(e)) => nothing(c) && new.pending is Idle && new.state == st && error_toast(new, "Error: "@, e),
            _ => unchanged(old, new, c),
        },
        Pending::Reload => match (rep, st) {
            (Reply::Entries(Ok(v)), AppState::Unlocked(UnlockedView::EntryList(l))) => {
                let n = v@.len();
                let sel: usize = if l.selected >= n { if n > 0 { (n - 1) as usize } else { 0 } } else { l.selected };
                &&& new.toast == old.toast && new.toast_ticks == old.toast_ticks
                &&& list_moved(EntryListState { entries: v, ..l }, sel, new, c)
            },
            _ => unchanged(old, new, c),
        },
        Pending::CopyFrom(f, notice) => match rep {
            Reply::Loaded(Ok(e)) => match field_text(e, f) {
                Some(t) => copies(t, notice, st, new, c) && new.toast == old.toast && new.toast_ticks == old.toast_ticks,
                None => unchanged(old, new, c),
            },
            _ => unchanged(old, new, c),
        },
        Pending::Copied(notice) => match rep {
            Reply::Copied(ok) => nothing(c) && new.pending is Idle && new.state == st && copy_reported(old, notice, ok, new),
            _ => unchanged(old, new, c),
        },
        Pending::DuplicateLoad(after) => match rep {
            Reply::Loaded(Ok(e)) => {
                &&& c.effects@.len() == 0 && (c.query matches Some(Query::Stamp))
                &&& new.pending == Pending::DuplicateStamp(e, after)
                &&& new.state == st && new.toast == old.toast && new.toast_ticks == old.toast_ticks
            },
            _ => unchanged(old, new, c),
        },
        Pending::DuplicateStamp(e, after) => match rep {
            Reply::Stamp(now, fresh) => {
                &&& c.effects@.len() == 0
                &&& c.query matches Some(Query::CreateEntry(d)) && duplicate_of(e, now, fresh, d)
                &&& new.pending == Pending::Duplicated(after)
                &&& new.state == st && new.toast == old.toast && new.toast_ticks == old.toast_ticks
            },
            _ => unchanged(old, new, c),
        },
        Pending::Generate => match rep {
            Reply::Generated(Some(Ok(pw))) => {
                &&& nothing(c) && new.pending is Idle
                &&& toast_is(new, "Password generated"@, ToastKind::Success)
                &&& match st {
                    AppState::Unlocked(UnlockedView::EntryEdit(e)) => new.state == AppState::Unlocked(
                        UnlockedView::EntryEdit(EntryEditState { password: pw, dirty: true, ..e }),
                    ),
                    _ => new.state == st,
                }
            },
            Reply::Generated(Some(Err(e))) => nothing(c) && new.pending is Idle && new.state == st && error_toast(new, "Generator error: "@, e),
            _ => unchanged(old, new, c),
        },
        Pending::SaveStamp => match (rep, st) {
            (Reply::Stamp(now, fresh), AppState::Unlocked(UnlockedView::EntryEdit(e))) => {
                &&& c.effects@.len() == 0
                &&& e.id is Some ==> (c.query matches Some(Query::UpdateEntry(d)) && saved_entry(e, now, fresh, d))
                &&& e.id is None ==> (c.query matches Some(Query::CreateEntry(d)) && saved_entry(e, now, fresh, d))
                &&& new.pending is Saved
                &&& new.state == st && new.toast == old.toast && new.toast_ticks == old.toast_ticks
            },
            _ => unchanged(old, new, c),
        },
        Pending::Saved => match rep {
            Reply::Done(Ok(())) => toast_is(new, "Entry saved"@, ToastKind::Success) && continues(AfterChange::PopToList, st, new, c),
            Reply::Done(Err(e)) => nothing(c) && new.pending is Idle && new.state == st && error_toast(new, "Error: "@, e),
            _ => unchanged(old, new, c),
        },
        Pending::SearchResults => match (rep, st) {
            (Reply::Entries(Ok(v)), AppState::Unlocked(UnlockedView::Search(q))) => {
                &&& nothing(c) && new.pending is Idle && new.toast == old.toast && new.toast_ticks == old.toast_ticks
                &&& new.state == AppState::Unlocked(UnlockedView::Search(SearchState { results: v, selected: 0, ..q }))
            },
            (Reply::Entries(Err(_)), AppState::Unlocked(UnlockedView::Search(q))) => {
                &&& nothing(c) && new.pending is Idle && new.toast == old.toast && new.toast_ticks == old.toast_ticks
                &&& new.state matches AppState::Unlocked(UnlockedView::Search(t))
                &&& new.state->Unlocked_0->Search_0.results@.len() == 0
                &&& new.state->Unlocked_0->Search_0.query == q.query
                &&& new.state->Unlocked_0->Search_0.selected == q.selected
                &&& new.state->Unlocked_0->Search_0.result_rect == q.result_rect
            },
            _ => unchanged(old, new, c),
        },
        Pending::SaveSettings => match (rep, st) {
            (Reply::Saved(Ok(())), AppState::Unlocked(UnlockedView::Settings(s))) => {
                &&& new.config@ == s.config@
                &&& c.effects@ == seq![Effect::SetHideMetadata(s.config.hide_metadata)]
                &&& c.query matches Some(Query::ListEntries)
                &&& new.pending == Pending::LoadList(ListFailure::Toast)
                &&& new.state == st
                &&& toast_is(new, "Settings saved"@, ToastKind::Success)
            },
            (Reply::Saved(Err(m)), _) => {
                &&& new.config == old.config
                &&& nothing(c) && new.pending is Idle && new.state == st
                &&& toast_is(new, "Save failed: "@ + m@, ToastKind::Error)
            },
            _ => new.config == old.config && unchanged(old, new, c),
        },
        Pending::Export => match rep {
            Reply::Exported(ExportOutcome::Written { count, name }) => nothing(c) && new.pending is Idle && new.state == st
                && toast_is(new, "Exported "@ + crate::text::decimal(count as nat) + " to "@ + name@, ToastKind::Success),
            Reply::Exported(ExportOutcome::WriteFailed(m)) => nothing(c) && new.pending is Idle && new.state == st
                && toast_is(new, "Export failed: "@ + m@, ToastKind::Error),
            Reply::Exported(ExportOutcome::Failed(e)) => nothing(c) && new.pending is Idle && new.state == st
                && error_toast(new, "Export error: "@, e),
            _ => unchanged(old, new, c),
        },
        Pending::Import => match rep {
            Reply::Imported(ImportOutcome::Unreadable(m)) => nothing(c) && new.pending is Idle && new.state == st
                && toast_is(
                new,
                "Import file not found: "@ + m@ + " \u{2014} place import.json in ~/.local/share/krypton/"@,
                ToastKind::Error,
            ),
            Reply::Imported(ImportOutcome::Failed(e)) => nothing(c) && new.pending is Idle && new.state == st
                && error_toast(new, "Import error: "@, e),
            Reply::Imported(ImportOutcome::Read(v)) => if v@.len() == 0 {
                import_finished(0, st, new, c)
            } else {
                stores_next(v@, v@.len() as usize, st, new, c) && new.toast == old.toast && new.toast_ticks == old.toast_ticks
            },
            _ => unchanged(old, new, c),
        },
        Pending::ImportNext { rest, count } => match rep {
            Reply::Done(Ok(())) => if rest@.len() == 0 {
                import_finished(count, st, new, c)
            } else {
                stores_next(rest@, count, st, new, c) && new.toast == old.toast && new.toast_ticks == old.toast_ticks
            },
            Reply::Done(Err(e)) => nothing(c) && new.pending is Idle && new.state == st
                && error_toast(new, "Import failed at entry: "@, e),
            _ => unchanged(old, new, c),
        },
        Pending::Idle => unchanged(old, new, c),
    }
}

// ── Top level ────────────────────────────────────────────────────────────

/// The interface after action `a` in state `old`, with command `c`.
pub open spec fn app_step(old: App, a: Action, new: App, c: Command) -> bool {
    match a {
        Action::Tick => {
            &&& same_settings(old, new)
            &&& old.toast_ticks > 0 ==> new.toast_ticks == old.toast_ticks - 1
            &&& old.toast_ticks == 0 ==> new.toast_ticks == 0
            &&& (old.toast_ticks == 1) ==> new.toast is None
            &&& (old.toast_ticks != 1) ==> new.toast == old.toast
            &&& match old.state {
                AppState::Locked(s) => match s.reset_step {
                    Some(ResetStep::Waiting { seconds }) => reset_countdown(s, seconds, new, c),
                    _ => nothing(c) && new.pending is Idle && new.state == old.state,
                },
                _ => nothing(c) && new.pending is Idle && new.state == old.state,
            }
        },
        Action::Lock => match old.state {
            AppState::Unlocked(_) => locks(old, new, c),
            AppState::FirstRun(s) => first_run_step(old, s, a, new, c),
            AppState::Locked(s) => locked_step(old, s, a, new, c),
        },
        Action::Quit => {
            &&& c.effects@ == seq![Effect::ClearClipboard, Effect::Lock] && c.query is None
            &&& new.pending is Idle
            &&& new.should_quit && new.confirm_action is None
            &&& new.state == old.state && new.config == old.config && new.toast == old.toast && new.toast_ticks == old.toast_ticks
        },
        _ => match old.state {
            AppState::FirstRun(s) => first_run_step(old, s, a, new, c),
            AppState::Locked(s) => locked_step(old, s, a, new, c),
            AppState::Unlocked(v) => match v {
                UnlockedView::EntryList(s) => list_step(old, s, a, new, c),
                UnlockedView::EntryDetail(d) => detail_step(old, d, a, new, c),
                UnlockedView::EntryEdit(e) => edit_step(old, e, a, new, c),
                UnlockedView::Search(q) => search_step(old, q, a, new, c),
                UnlockedView::Settings(st) => settings_step(old, st, a, new, c),
                UnlockedView::Help(prev) => help_step(old, *prev, a, new, c),
            },
        },
    }
}

/// A command that asks for nothing.
fn no_command() -> (c: Command)
    ensures
        nothing(c),
{
    Command { effects: Vec::new(), query: None }
}

/// A command that asks only `q`.
fn ask(q: Query) -> (c: Command)
    ensures
        c.effects@.len() == 0,
        c.query == Some(q),
{
    Command { effects: Vec::new(), query: Some(q) }
}

/// `prefix` followed by the message of `e`.
fn error_message(prefix: &str, e: &VaultError) -> (r: String)
    ensures
        error_line(prefix@, *e, r@),
{
    String::from_str(prefix).concat(e.message().as_str())
}

/// The text of an optional field, empty when absent.
fn opt_or_empty(o: &Option<String>) -> (r: String)
    ensures
        r@ == opt_text(*o),
{
    match o {
        Some(s) => s.clone(),
        None => String::new(),
    }
}

/// The editor opened on a stored entry.
fn edit_state_of(e: &Entry) -> (r: EntryEditState)
    ensures
        edit_of(*e, r),
{
    EntryEditState {
        id: Some(e.id),
        title: e.title.clone(),
        username: opt_or_empty(&e.username),
        password: String::new(),
        url: opt_or_empty(&e.url),
        notes: opt_or_empty(&e.notes),
        tags: String::new(),
        active_field: 0,
        dirty: false,
        existing_password: e.password.clone(),
        initial_created_at: e.created_at,
    }
}

/// The text of an editor field as an optional entry field.
fn field_of(s: &String) -> (r: Option<String>)
    ensures
        r.deep_view() == field_value(s@),
{
    if s.unicode_len() == 0 {
        None
    } else {
        Some(s.clone())
    }
}

/// The entry the editor saves at time `now`, with `fresh` as the id of a
/// new entry.
fn saved_entry_of(e: &EntryEditState, now: i64, fresh: EntryId) -> (r: Entry)
    ensures
        saved_entry(*e, now, fresh, r),
{
    let is_new = e.id.is_none();
    let password = if e.password.unicode_len() == 0 && !is_new {
        e.existing_password.clone()
    } else {
        e.password.clone()
    };
    Entry {
        id: match e.id {
            Some(id) => id,
            None => fresh,
        },
        title: e.title.clone(),
        username: field_of(&e.username),
        password,
        url: field_of(&e.url),
        notes: field_of(&e.notes),
        tags: Vec::new(),
        custom_fields: Vec::new(),
        created_at: if is_new { now } else { e.initial_created_at },
        updated_at: now,
    }
}

impl App {
    /// An interface in `initial_state`, with no toast, nothing pending.
    pub fn new(config: KryptonConfig, initial_state: AppState) -> (r: Self)
        ensures
            r.config == config,
            r.state == initial_state,
            !r.should_quit,
            r.toast is None,
            r.toast_ticks == 0,
            r.confirm_action is None,
            r.pending is Idle,
    {
        App {
            config,
            state: initial_state,
            should_quit: false,
            toast: None,
            toast_ticks: 0,
            confirm_action: None,
            pending: Pending::Idle,
        }
    }

    /// Whether the interface is waiting for no reply.
    pub fn is_idle(&self) -> (r: bool)
        ensures
            r == self.pending is Idle,
    {
        match self.pending {
            Pending::Idle => true,
            _ => false,
        }
    }

    /// Shows a toast for 60 ticks (about three seconds).
    pub fn show_toast(&mut self, msg: String, kind: ToastKind)
        ensures
            toast_is(*final(self), msg@, kind),
            final(self).state == old(self).state,
            final(self).pending == old(self).pending,
            same_settings(*old(self), *final(self)),
    {
        self.toast = Some(Toast { message: msg, kind });
        self.toast_ticks = 60;
    }

    /// Counts the toast down; it disappears when the count reaches zero.
    pub fn tick(&mut self)
        ensures
            final(self).state == old(self).state,
            final(self).pending == old(self).pending,
            same_settings(*old(self), *final(self)),
            old(self).toast_ticks > 0 ==> final(self).toast_ticks == old(self).toast_ticks - 1,
            old(self).toast_ticks == 0 ==> final(self).toast_ticks == 0,
            old(self).toast_ticks == 1 ==> final(self).toast is None,
            old(self).toast_ticks != 1 ==> final(self).toast == old(self).toast,
    {
        if self.toast_ticks > 0 {
            self.toast_ticks = self.toast_ticks - 1;
            if self.toast_ticks == 0 {
                self.toast = None;
            }
        }
    }

    /// The configured accent colour.
    pub fn accent_color(&self) -> (r: Accent)
        ensures
            r == accent_for(self.config.accent_color@),
    {
        self.config.accent()
    }

    /// Which screen is showing.
    pub fn screen(&self) -> (r: Screen)
        ensures
            r == screen_of(self.state),
    {
        match &self.state {
            AppState::FirstRun(_) => Screen::FirstRun,
            AppState::Locked(_) => Screen::Locked,
            AppState::Unlocked(v) => match v {
                UnlockedView::EntryList(_) => Screen::EntryList,
                UnlockedView::EntryDetail(_) => Screen::EntryDetail,
                UnlockedView::EntryEdit(_) => Screen::EntryEdit,
                UnlockedView::Search(_) => Screen::Search,
                UnlockedView::Settings(_) => Screen::Settings,
                UnlockedView::Help(_) => Screen::Help,
            },
        }
    }

    /// Takes the current state out, leaving a placeholder.
    fn take_state(&mut self) -> (r: AppState)
        ensures
            r == old(self).state,
            final(self).config == old(self).config,
            final(self).should_quit == old(self).should_quit,
            final(self).toast == old(self).toast,
            final(self).toast_ticks == old(self).toast_ticks,
            final(self).confirm_action == old(self).confirm_action,
            final(self).pending == old(self).pending,
    {
        let mut s = AppState::Locked(LockedState::new());
        std::mem::swap(&mut s, &mut self.state);
        s
    }

    /// Central dispatch: applies an action and says what to ask next.
    pub fn handle_action(&mut self, action: Action) -> (r: Command)
        requires
            old(self).pending is Idle,
        ensures
            app_step(*old(self), action, *final(self), r),
    {
        match action {
            Action::Tick => {
                self.tick();
                self.reset_tick()
            },
            Action::Lock => {
                let unlocked = match &self.state {
                    AppState::Unlocked(_) => true,
                    _ => false,
                };
                if unlocked {
                    self.lock_now()
                } else {
                    self.handle_action_inner(action)
                }
            },
            Action::Quit => {
                self.confirm_action = None;
                self.should_quit = true;
                let mut effects: Vec<Effect> = Vec::new();
                effects.push(Effect::ClearClipboard);
                effects.push(Effect::Lock);
                assert(effects@ =~= seq![Effect::ClearClipboard, Effect::Lock]);
                Command { effects, query: None }
            },
            _ => self.handle_action_inner(action),
        }
    }

    /// Counts a running vault-reset countdown down by one second.
    fn reset_tick(&mut self) -> (r: Command)
        requires
            old(self).pending is Idle,
        ensures
            same_frame(*old(self), *final(self)),
            match old(self).state {
                AppState::Locked(s) => match s.reset_step {
                    Some(ResetStep::Waiting { seconds }) => reset_countdown(s, seconds, *final(self), r),
                    _ => nothing(r) && final(self).pending is Idle && final(self).state == old(self).state,
                },
                _ => nothing(r) && final(self).pending is Idle && final(self).state == old(self).state,
            },
    {
        let waiting = match &self.state {
            AppState::Locked(s) => match &s.reset_step {
                Some(ResetStep::Waiting { .. }) => true,
                _ => false,
            },
            _ => false,
        };
        if waiting {
            let ghost before = *self;
            let st = self.take_state();
            match st {
                AppState::Locked(s) => self.handle_locked(s, Action::Tick, Ghost(before)),
                other => {
                    self.state = other;
                    no_command()
                },
            }
        } else {
            no_command()
        }
    }

    /// Locks the vault from an unlocked screen.
    fn lock_now(&mut self) -> (r: Command)
        requires
            old(self).pending is Idle,
        ensures
            locks(*old(self), *final(self), r),
    {
        self.state = AppState::Locked(LockedState::new());
        self.confirm_action = None;
        let mut effects: Vec<Effect> = Vec::new();
        effects.push(Effect::ClearClipboard);
        effects.push(Effect::Lock);
        assert(effects@ =~= seq![Effect::ClearClipboard, Effect::Lock]);
        Command { effects, query: None }
    }

    fn handle_action_inner(&mut self, action: Action) -> (r: Command)
        requires
            old(self).pending is Idle,
            action != Action::Tick,
            action != Action::Quit,
            action == Action::Lock ==> !(old(self).state is Unlocked),
        ensures
            app_step(*old(self), action, *final(self), r),
    {
        let ghost before = *self;
        let st = self.take_state();
        match st {
            AppState::FirstRun(s) => self.handle_first_run(s, action, Ghost(before)),
            AppState::Locked(s) => self.handle_locked(s, action, Ghost(before)),
            AppState::Unlocked(v) => match v {
                UnlockedView::EntryList(s) => self.handle_entry_list(s, action, Ghost(before)),
                UnlockedView::EntryDetail(d) => self.handle_entry_detail(d, action, Ghost(before)),
                UnlockedView::EntryEdit(e) => self.handle_entry_edit(e, action, Ghost(before)),
                UnlockedView::Search(q) => self.handle_search(q, action, Ghost(before)),
                UnlockedView::Settings(st) => self.handle_settings(st, action, Ghost(before)),
                UnlockedView::Help(prev) => self.handle_help(*prev, action, Ghost(before)),
            },
        }
    }

    /// Moves the list selection to `sel` and asks for the preview of the
    /// entry there.
    fn list_select(&mut self, s: EntryListState, sel: usize) -> (r: Command)
        ensures
            list_moved(s, sel, *final(self), r),
            same_frame(*old(self), *final(self)),
    {
        let mut s = s;
        let ghost s0 = s;
        s.selected = sel;
        if sel < s.entries.len() {
            let id = s.entries[sel].id;
            self.state = AppState::Unlocked(UnlockedView::EntryList(s));
            self.pending = Pending::Preview;
            ask(Query::GetEntry(id))
        } else {
            s.preview_entry = None;
            self.state = AppState::Unlocked(UnlockedView::EntryList(s));
            self.pending = Pending::Idle;
            no_command()
        }
    }

    /// Asks for the entry at `sel` of `entries`, waiting as `p` says.
    fn load_selected_cmd(&mut self, entries: &Vec<EntrySummary>, sel: usize, p: Pending) -> (r: Command)
        ensures
            sel < entries@.len() ==> (r.effects@.len() == 0 && (r.query matches Some(Query::GetEntry(id))
                && id == entries@[sel as int].id) && final(self).pending == p),
            sel >= entries@.len() ==> nothing(r) && final(self).pending is Idle,
            final(self).state == old(self).state,
            same_frame(*old(self), *final(self)),
    {
        if sel < entries.len() {
            self.pending = p;
            ask(Query::GetEntry(entries[sel].id))
        } else {
            self.pending = Pending::Idle;
            no_command()
        }
    }

    /// Deletes entry `id`, asking for confirmation first when configured.
    fn delete_with_confirm(&mut self, id: EntryId, after: AfterChange) -> (r: Command)
        ensures
            delete_step(*old(self), id, after, old(self).state, *final(self), r),
    {
        if !self.config.confirm_before_delete {
            self.pending = Pending::Deleted(after);
            ask(Query::DeleteEntry(id))
        } else if self.confirm_action == Some(ConfirmAction::DeleteEntry(id)) {
            self.confirm_action = None;
            self.pending = Pending::Deleted(after);
            ask(Query::DeleteEntry(id))
        } else {
            self.confirm_action = Some(ConfirmAction::DeleteEntry(id));
            self.show_toast(String::from_str("Press d again to confirm delete, Esc to cancel"), ToastKind::Info);
            self.pending = Pending::Idle;
            no_command()
        }
    }

    /// Asks for the entry list to return to the list screen.
    fn pop_to_list(&mut self) -> (r: Command)
        ensures
            pops_to_list(old(self).state, *final(self), r),
            same_frame(*old(self), *final(self)),
    {
        self.pending = Pending::LoadList(ListFailure::Toast);
        ask(Query::ListEntries)
    }

    fn handle_entry_list(&mut self, s: EntryListState, action: Action, Ghost(before): Ghost<App>) -> (r: Command)
        requires
            old(self).pending is Idle,
            same_frame(before, *old(self)),
        ensures
            list_step(before, s, action, *final(self), r),
    {
        if action != Action::DeleteEntry {
            self.confirm_action = None;
        }
        let len = s.entries.len();
        let sel = s.selected;
        match action {
            Action::Up => {
                let next = if sel > 0 { sel - 1 } else { sel };
                self.list_select(s, next)
            },
            Action::Down => {
                let next = if sel < len && sel + 1 < len { sel + 1 } else { sel };
                self.list_select(s, next)
            },
            Action::PageUp => {
                let next = if sel >= 10 { sel - 10 } else { 0 };
                self.list_select(s, next)
            },
            Action::PageDown => {
                let last = if len > 0 { len - 1 } else { 0 };
                let next = if sel < last && last - sel > 10 { sel + 10 } else { last };
                self.list_select(s, next)
            },
            Action::Click(_col, row) => {
                let r = s.table_rect;
                if r.height > 0 && row >= r.y && row - r.y < r.height && ((row - r.y) as usize) < len {
                    let idx = (row - r.y) as usize;
                    self.list_select(s, idx)
                } else {
                    self.state = AppState::Unlocked(UnlockedView::EntryList(s));
                    no_command()
                }
            },
            Action::Select => {
                let r = self.load_selected_cmd(&s.entries, sel, Pending::OpenDetail);
                self.state = AppState::Unlocked(UnlockedView::EntryList(s));
                r
            },
            Action::EditEntry => {
                let r = self.load_selected_cmd(&s.entries, sel, Pending::OpenEdit { toast_errors: true });
                self.state = AppState::Unlocked(UnlockedView::EntryList(s));
                r
            },
            Action::CopyPassword => {
                let r = self.load_selected_cmd(&s.entries, sel, Pending::CopyFrom(CopyField::Password, CopyNotice::Password30));
                self.state = AppState::Unlocked(UnlockedView::EntryList(s));
                r
            },
            Action::CopyUsername => {
                let r = self.load_selected_cmd(&s.entries, sel, Pending::CopyFrom(CopyField::Username, CopyNotice::Username));
                self.state = AppState::Unlocked(UnlockedView::EntryList(s));
                r
            },
            Action::CopyUrl => {
                let r = self.load_selected_cmd(&s.entries, sel, Pending::CopyFrom(CopyField::Url, CopyNotice::Url));
                self.state = AppState::Unlocked(UnlockedView::EntryList(s));
                r
            },
            Action::DuplicateEntry => {
                let r = self.load_selected_cmd(&s.entries, sel, Pending::DuplicateLoad(AfterChange::Reload));
                self.state = AppState::Unlocked(UnlockedView::EntryList(s));
                r
            },
            Action::NewEntry => {
                self.state = AppState::Unlocked(UnlockedView::EntryEdit(EntryEditState::new()));
                no_command()
            },
            Action::DeleteEntry => {
                if sel < len {
                    let id = s.entries[sel].id;
                    self.state = AppState::Unlocked(UnlockedView::EntryList(s));
                    self.delete_with_confirm(id, AfterChange::Reload)
                } else {
                    self.state = AppState::Unlocked(UnlockedView::EntryList(s));
                    no_command()
                }
            },
            Action::OpenSettings => {
                let config = self.config.clone();
                self.state = AppState::Unlocked(UnlockedView::Settings(SettingsState::with_config(config)));
                no_command()
            },
            Action::StartSearch => {
                self.state = AppState::Unlocked(UnlockedView::Search(SearchState::new()));
                no_command()
            },
            Action::Lock => {
                self.state = AppState::Locked(LockedState::new());
                let mut effects: Vec<Effect> = Vec::new();
                effects.push(Effect::ClearClipboard);
                effects.push(Effect::Lock);
                assert(effects@ =~= seq![Effect::ClearClipboard, Effect::Lock]);
                Command { effects, query: None }
            },
            Action::Help => {
                self.state = AppState::Unlocked(UnlockedView::Help(Box::new(UnlockedView::EntryList(s))));
                no_command()
            },
            Action::Export => {
                self.state = AppState::Unlocked(UnlockedView::EntryList(s));
                self.pending = Pending::Export;
                ask(Query::Export)
            },
            Action::Import => {
                self.state = AppState::Unlocked(UnlockedView::EntryList(s));
                self.pending = Pending::Import;
                ask(Query::Import)
            },
            _ => {
                self.state = AppState::Unlocked(UnlockedView::EntryList(s));
                no_command()
            },
        }
    }

    fn handle_entry_detail(&mut self, d: EntryDetailState, action: Action, Ghost(before): Ghost<App>) -> (r: Command)
        requires
            old(self).pending is Idle,
            same_frame(before, *old(self)),
        ensures
            detail_step(before, d, action, *final(self), r),
    {
        let mut d = d;
        match action {
            Action::Back => {
                self.state = AppState::Unlocked(UnlockedView::EntryDetail(d));
                self.pop_to_list()
            },
            Action::ToggleVisibility => {
                d.show_password = !d.show_password;
                self.state = AppState::Unlocked(UnlockedView::EntryDetail(d));
                no_command()
            },
            Action::EditEntry => {
                let edit = edit_state_of(&d.entry);
                self.state = AppState::Unlocked(UnlockedView::EntryEdit(edit));
                no_command()
            },
            Action::CopyPassword => {
                let text = d.entry.password.clone();
                self.state = AppState::Unlocked(UnlockedView::EntryDetail(d));
                self.pending = Pending::Copied(CopyNotice::Password30);
                ask(Query::Copy(text))
            },
            Action::CopyUsername => {
                match &d.entry.username {
                    Some(u) => {
                        let text = u.clone();
                        self.state = AppState::Unlocked(UnlockedView::EntryDetail(d));
                        self.pending = Pending::Copied(CopyNotice::Username);
                        ask(Query::Copy(text))
                    },
                    None => {
                        self.state = AppState::Unlocked(UnlockedView::EntryDetail(d));
                        no_command()
                    },
                }
            },
            Action::CopyUrl => {
                match &d.entry.url {
                    Some(u) => {
                        let text = u.clone();
                        self.state = AppState::Unlocked(UnlockedView::EntryDetail(d));
                        self.pending = Pending::Copied(CopyNotice::Url);
                        ask(Query::Copy(text))
                    },
                    None => {
                        self.state = AppState::Unlocked(UnlockedView::EntryDetail(d));
                        no_command()
                    },
                }
            },
            Action::Help => {
                self.state = AppState::Unlocked(UnlockedView::Help(Box::new(UnlockedView::EntryDetail(d))));
                no_command()
            },
            Action::DeleteEntry => {
                let id = d.entry.id;
                self.state = AppState::Unlocked(UnlockedView::EntryDetail(d));
                self.delete_with_confirm(id, AfterChange::PopToList)
            },
            Action::DuplicateEntry => {
                let copy = d.entry.clone();
                self.state = AppState::Unlocked(UnlockedView::EntryDetail(d));
                self.pending = Pending::DuplicateStamp(copy, AfterChange::PopToList);
                ask(Query::Stamp)
            },
            _ => {
                self.state = AppState::Unlocked(UnlockedView::EntryDetail(d));
                no_command()
            },
        }
    }

    fn handle_entry_edit(&mut self, e: EntryEditState, action: Action, Ghost(before): Ghost<App>) -> (r: Command)
        requires
            old(self).pending is Idle,
            same_frame(before, *old(self)),
        ensures
            edit_step(before, e, action, *final(self), r),
    {
        let mut e = e;
        let ghost e0 = e;
        match action {
            Action::Back => {
                self.state = AppState::Unlocked(UnlockedView::EntryEdit(e));
                self.pop_to_list()
            },
            Action::NextField => {
                e.active_field = if e.active_field < 4 { e.active_field + 1 } else { 4 };
                self.state = AppState::Unlocked(UnlockedView::EntryEdit(e));
                no_command()
            },
            Action::PrevField => {
                e.active_field = if e.active_field > 0 { e.active_field - 1 } else { 0 };
                self.state = AppState::Unlocked(UnlockedView::EntryEdit(e));
                no_command()
            },
            Action::CharInput(c) => {
                e.dirty = true;
                if e.active_field == 0 {
                    push_char(&mut e.title, c);
                } else if e.active_field == 1 {
                    push_char(&mut e.username, c);
                } else if e.active_field == 2 {
                    push_char(&mut e.password, c);
                } else if e.active_field == 3 {
                    push_char(&mut e.url, c);
                } else if e.active_field == 4 {
                    push_char(&mut e.notes, c);
                }
                self.state = AppState::Unlocked(UnlockedView::EntryEdit(e));
                no_command()
            },
            Action::Backspace => {
                e.dirty = true;
                if e.active_field == 0 {
                    pop_char(&mut e.title);
                } else if e.active_field == 1 {
                    pop_char(&mut e.username);
                } else if e.active_field == 2 {
                    pop_char(&mut e.password);
                } else if e.active_field == 3 {
                    pop_char(&mut e.url);
                } else if e.active_field == 4 {
                    pop_char(&mut e.notes);
                }
                self.state = AppState::Unlocked(UnlockedView::EntryEdit(e));
                no_command()
            },
            Action::Help => {
                self.state = AppState::Unlocked(UnlockedView::Help(Box::new(UnlockedView::EntryEdit(e))));
                no_command()
            },
            Action::GeneratePassword => {
                if e.active_field == 2 {
                    let g = crate::ext::GeneratorConfig {
                        length: self.config.password_length,
                        uppercase: self.config.password_uppercase,
                        lowercase: self.config.password_lowercase,
                        digits: self.config.password_digits,
                        symbols: self.config.password_symbols,
                    };
                    self.state = AppState::Unlocked(UnlockedView::EntryEdit(e));
                    self.pending = Pending::Generate;
                    ask(Query::Generate(g))
                } else {
                    self.state = AppState::Unlocked(UnlockedView::EntryEdit(e));
                    no_command()
                }
            },
            Action::SaveEntry => {
                if crate::text::is_blank(e.title.as_str()) {
                    self.state = AppState::Unlocked(UnlockedView::EntryEdit(e));
                    self.show_toast(String::from_str("Title is required"), ToastKind::Error);
                    no_command()
                } else {
                    self.state = AppState::Unlocked(UnlockedView::EntryEdit(e));
                    self.pending = Pending::SaveStamp;
                    ask(Query::Stamp)
                }
            },
            _ => {
                self.state = AppState::Unlocked(UnlockedView::EntryEdit(e));
                no_command()
            },
        }
    }

    fn handle_search(&mut self, q: SearchState, action: Action, Ghost(before): Ghost<App>) -> (r: Command)
        requires
            old(self).pending is Idle,
            same_frame(before, *old(self)),
        ensures
            search_step(before, q, action, *final(self), r),
    {
        let mut q = q;
        let len = q.results.len();
        let sel = q.selected;
        match action {
            Action::Back => {
                self.state = AppState::Unlocked(UnlockedView::Search(q));
                self.pop_to_list()
            },
            Action::Up => {
                q.selected = if sel > 0 { sel - 1 } else { sel };
                self.state = AppState::Unlocked(UnlockedView::Search(q));
                no_command()
            },
            Action::Down => {
                q.selected = if sel < len && sel + 1 < len { sel + 1 } else { sel };
                self.state = AppState::Unlocked(UnlockedView::Search(q));
                no_command()
            },
            Action::CharInput(c) => {
                push_char(&mut q.query, c);
                let text = q.query.clone();
                self.state = AppState::Unlocked(UnlockedView::Search(q));
                self.pending = Pending::SearchResults;
                ask(Query::Search(text))
            },
            Action::Backspace => {
                pop_char(&mut q.query);
                if q.query.unicode_len() == 0 {
                    q.results = Vec::new();
                    q.selected = 0;
                    self.state = AppState::Unlocked(UnlockedView::Search(q));
                    no_command()
                } else {
                    let text = q.query.clone();
                    self.state = AppState::Unlocked(UnlockedView::Search(q));
                    self.pending = Pending::SearchResults;
                    ask(Query::Search(text))
                }
            },
            Action::Click(_col, row) => {
                let r = q.result_rect;
                if r.height > 0 && row >= r.y && row - r.y < r.height && ((row - r.y) as usize) < len {
                    q.selected = (row - r.y) as usize;
                }
                self.state = AppState::Unlocked(UnlockedView::Search(q));
                no_command()
            },
            Action::Help => {
                self.state = AppState::Unlocked(UnlockedView::Help(Box::new(UnlockedView::Search(q))));
                no_command()
            },
            Action::Select => {
                let r = self.load_selected_cmd(&q.results, sel, Pending::OpenDetail);
                self.state = AppState::Unlocked(UnlockedView::Search(q));
                r
            },
            Action::EditEntry => {
                let r = self.load_selected_cmd(&q.results, sel, Pending::OpenEdit { toast_errors: false });
                self.state = AppState::Unlocked(UnlockedView::Search(q));
                r
            },
            Action::CopyPassword => {
                let r = self.load_selected_cmd(&q.results, sel, Pending::CopyFrom(CopyField::Password, CopyNotice::PasswordTimeout));
                self.state = AppState::Unlocked(UnlockedView::Search(q));
                r
            },
            Action::CopyUsername => {
                let r = self.load_selected_cmd(&q.results, sel, Pending::CopyFrom(CopyField::Username, CopyNotice::UsernameQuiet));
                self.state = AppState::Unlocked(UnlockedView::Search(q));
                r
            },
            Action::DuplicateEntry => {
                let r = self.load_selected_cmd(&q.results, sel, Pending::DuplicateLoad(AfterChange::PopToList));
                self.state = AppState::Unlocked(UnlockedView::Search(q));
                r
            },
            Action::DeleteEntry => {
                if sel < len {
                    let id = q.results[sel].id;
                    self.state = AppState::Unlocked(UnlockedView::Search(q));
                    self.delete_with_confirm(id, AfterChange::PopToList)
                } else {
                    self.state = AppState::Unlocked(UnlockedView::Search(q));
                    no_command()
                }
            },
            _ => {
                self.state = AppState::Unlocked(UnlockedView::Search(q));
                no_command()
            },
        }
    }

    fn handle_settings(&mut self, st: SettingsState, action: Action, Ghost(before): Ghost<App>) -> (r: Command)
        requires
            old(self).pending is Idle,
            same_frame(before, *old(self)),
        ensures
            settings_step(before, st, action, *final(self), r),
    {
        let mut st = st;
        match action {
            Action::Back => {
                if st.editing_number {
                    st.editing_number = false;
                    st.number_buffer = String::new();
                    self.state = AppState::Unlocked(UnlockedView::Settings(st));
                    no_command()
                } else {
                    self.state = AppState::Unlocked(UnlockedView::Settings(st));
                    self.pop_to_list()
                }
            },
            Action::Up => {
                if !st.editing_number && st.selected > 0 {
                    st.selected = st.selected - 1;
                }
                self.state = AppState::Unlocked(UnlockedView::Settings(st));
                no_command()
            },
            Action::Down => {
                if !st.editing_number && st.selected < 11 {
                    st.selected = st.selected + 1;
                }
                self.state = AppState::Unlocked(UnlockedView::Settings(st));
                no_command()
            },
            Action::ToggleSetting => {
                if st.editing_number {
                    st.commit_number();
                } else if st.selected == 1 || st.selected == 3 {
                    st.start_edit();
                } else {
                    let i = st.selected;
                    st.toggle(i);
                }
                self.state = AppState::Unlocked(UnlockedView::Settings(st));
                no_command()
            },
            Action::CharInput(c) => {
                if st.editing_number {
                    push_char(&mut st.number_buffer, c);
                }
                self.state = AppState::Unlocked(UnlockedView::Settings(st));
                no_command()
            },
            Action::Backspace => {
                if st.editing_number {
                    pop_char(&mut st.number_buffer);
                }
                self.state = AppState::Unlocked(UnlockedView::Settings(st));
                no_command()
            },
            Action::Help => {
                self.state = AppState::Unlocked(UnlockedView::Help(Box::new(UnlockedView::Settings(st))));
                no_command()
            },
            Action::SaveEntry => {
                if st.editing_number {
                    st.commit_number();
                }
                let cfg = st.config.clone();
                self.state = AppState::Unlocked(UnlockedView::Settings(st));
                self.pending = Pending::SaveSettings;
                ask(Query::SaveConfig(cfg))
            },
            _ => {
                self.state = AppState::Unlocked(UnlockedView::Settings(st));
                no_command()
            },
        }
    }

    fn handle_help(&mut self, prev: UnlockedView, action: Action, Ghost(before): Ghost<App>) -> (r: Command)
        requires
            old(self).pending is Idle,
            same_frame(before, *old(self)),
        ensures
            help_step(before, prev, action, *final(self), r),
    {
        if action == Action::Back {
            self.state = AppState::Unlocked(prev);
        } else {
            self.state = AppState::Unlocked(UnlockedView::Help(Box::new(prev)));
        }
        no_command()
    }

    /// Takes the pending request out, leaving the interface idle.
    fn take_pending(&mut self) -> (r: Pending)
        ensures
            r == old(self).pending,
            final(self).pending is Idle,
            final(self).state == old(self).state,
            same_frame(*old(self), *final(self)),
    {
        let mut p = Pending::Idle;
        std::mem::swap(&mut p, &mut self.pending);
        p
    }

    /// Asks for the entry list, to continue as `after` says.
    fn continue_after(&mut self, after: AfterChange) -> (r: Command)
        ensures
            continues(after, old(self).state, *final(self), r),
            same_frame(*old(self), *final(self)),
    {
        match after {
            AfterChange::Reload => {
                self.pending = Pending::Reload;
            },
            AfterChange::PopToList => {
                self.pending = Pending::LoadList(ListFailure::Toast);
            },
        }
        ask(Query::ListEntries)
    }

    /// Shows `prefix` followed by the message of `e` as an error toast.
    fn toast_error(&mut self, prefix: &str, e: &VaultError)
        ensures
            error_toast(*final(self), prefix@, *e),
            final(self).state == old(self).state,
            final(self).pending == old(self).pending,
            same_settings(*old(self), *final(self)),
    {
        let m = error_message(prefix, e);
        self.show_toast(m, ToastKind::Error);
    }

    /// Reports a copy to the clipboard.
    fn report_copy(&mut self, notice: CopyNotice, ok: bool)
        ensures
            copy_reported(*old(self), notice, ok, *final(self)),
            final(self).state == old(self).state,
            final(self).pending == old(self).pending,
            same_settings(*old(self), *final(self)),
    {
        match notice {
            CopyNotice::Password30 => {
                if ok {
                    self.show_toast(String::from_str("Password copied \u{2014} clears in 30s"), ToastKind::Success);
                } else {
                    self.show_toast(String::from_str("Clipboard unavailable (is wl-clipboard installed?)"), ToastKind::Error);
                }
            },
            CopyNotice::PasswordTimeout => {
                if ok {
                    let secs = crate::text::u64_to_decimal(self.config.clipboard_timeout_secs as u64);
                    let msg = String::from_str("Password copied \u{2014} clears in ").concat(secs.as_str()).concat("s");
                    self.show_toast(msg, ToastKind::Success);
                } else {
                    self.show_toast(String::from_str("Clipboard unavailable"), ToastKind::Error);
                }
            },
            CopyNotice::Username => {
                if ok {
                    self.show_toast(String::from_str("Username copied"), ToastKind::Success);
                } else {
                    self.show_toast(String::from_str("Clipboard unavailable"), ToastKind::Error);
                }
            },
            CopyNotice::UsernameQuiet => {
                if ok {
                    self.show_toast(String::from_str("Username copied"), ToastKind::Success);
                }
            },
            CopyNotice::Url => {
                if ok {
                    self.show_toast(String::from_str("URL copied"), ToastKind::Success);
                }
            },
        }
    }

    /// Stores the first of `rest` as the next imported entry.
    fn store_next(&mut self, rest: Vec<Entry>, count: usize) -> (r: Command)
        requires
            rest@.len() > 0,
        ensures
            stores_next(rest@, count, old(self).state, *final(self), r),
            same_frame(*old(self), *final(self)),
    {
        let mut rest = rest;
        let first = rest.remove(0);
        self.pending = Pending::ImportNext { rest, count };
        ask(Query::CreateEntry(first))
    }

    /// Reports a finished import of `count` entries and refreshes the list.
    fn finish_import(&mut self, count: usize) -> (r: Command)
        ensures
            import_finished(count, old(self).state, *final(self), r),
            same_settings(*old(self), *final(self)),
    {
        let msg = String::from_str("Imported ").concat(crate::text::u64_to_decimal(count as u64).as_str()).concat(" entries");
        self.show_toast(msg, ToastKind::Success);
        self.continue_after(AfterChange::Reload)
    }

    /// Applies the reply to the query the interface is waiting on and says
    /// what to ask next.
    pub fn resume(&mut self, reply: Reply) -> (r: Command)
        ensures
            resume_step(*old(self), reply, *final(self), r),
    {
        let ghost before = *self;
        let pending = self.take_pending();
        match pending {
            Pending::CreateVault => self.resume_create_vault(reply, Ghost(before)),
            Pending::Unlock => self.resume_unlock(reply, Ghost(before)),
            Pending::LoadList(f) => self.resume_load_list(f, reply, Ghost(before)),
            Pending::LoadPreview(v) => self.resume_load_preview(v, reply, Ghost(before)),
            Pending::Preview => self.resume_preview(reply, Ghost(before)),
            Pending::OpenDetail => self.resume_open_detail(reply, Ghost(before)),
            Pending::OpenEdit { toast_errors } => self.resume_open_edit(toast_errors, reply, Ghost(before)),
            Pending::Deleted(after) => self.resume_deleted(after, reply, Ghost(before)),
            Pending::Duplicated(after) => self.resume_duplicated(after, reply, Ghost(before)),
            Pending::Reload => self.resume_reload(reply, Ghost(before)),
            Pending::CopyFrom(f, notice) => self.resume_copy_from(f, notice, reply, Ghost(before)),
            Pending::Copied(notice) => self.resume_copied(notice, reply, Ghost(before)),
            Pending::DuplicateLoad(after) => self.resume_duplicate_load(after, reply, Ghost(before)),
            Pending::DuplicateStamp(e, after) => self.resume_duplicate_stamp(e, after, reply, Ghost(before)),
            Pending::Generate => self.resume_generate(reply, Ghost(before)),
            Pending::SaveStamp => self.resume_save_stamp(reply, Ghost(before)),
            Pending::Saved => self.resume_saved(reply, Ghost(before)),
            Pending::SearchResults => self.resume_search_results(reply, Ghost(before)),
            Pending::SaveSettings => self.resume_save_settings(reply, Ghost(before)),
            Pending::Export => self.resume_export(reply, Ghost(before)),
            Pending::Import => self.resume_import(reply, Ghost(before)),
            Pending::ImportNext { rest, count } => self.resume_import_next(rest, count, reply, Ghost(before)),
            Pending::Idle => self.resume_idle(reply, Ghost(before)),
        }
    }

    fn resume_create_vault(&mut self, reply: Reply, Ghost(before): Ghost<App>) -> (r: Command)
        requires
            before.pending == Pending::CreateVault,
            old(self).pending is Idle,
            old(self).state == before.state,
            same_frame(before, *old(self)),
        ensures
            resume_step(before, reply, *final(self), r),
    {
                match reply {
                    Reply::Done(Ok(())) => {
                        self.pending = Pending::LoadList(ListFailure::FirstRun);
                        ask(Query::ListEntries)
                    },
                    Reply::Done(Err(e)) => {
                        let st = self.take_state();
                        match st {
                            AppState::FirstRun(s) => {
                                let mut s = s;
                                s.error = Some(error_message("Failed to create vault: ", &e));
                                self.state = AppState::FirstRun(s);
                            },
                            other => {
                                self.state = other;
                            },
                        }
                        no_command()
                    },
                    _ => no_command(),
                }
            }

    fn resume_unlock(&mut self, reply: Reply, Ghost(before): Ghost<App>) -> (r: Command)
        requires
            before.pending == Pending::Unlock,
            old(self).pending is Idle,
            old(self).state == before.state,
            same_frame(before, *old(self)),
        ensures
            resume_step(before, reply, *final(self), r),
    {
                match reply {
                    Reply::Done(Ok(())) => {
                        self.pending = Pending::LoadList(ListFailure::Locked);
                        ask(Query::ListEntries)
                    },
                    Reply::Done(Err(_)) => {
                        let st = self.take_state();
                        match st {
                            AppState::Locked(s) => {
                                let mut s = s;
                                s.error = Some(String::from_str("Wrong master password"));
                                s.input = String::new();
                                self.state = AppState::Locked(s);
                            },
                            other => {
                                self.state = other;
                            },
                        }
                        no_command()
                    },
                    _ => no_command(),
                }
            }

    fn resume_load_list(&mut self, f: ListFailure, reply: Reply, Ghost(before): Ghost<App>) -> (r: Command)
        requires
            before.pending == Pending::LoadList(f),
            old(self).pending is Idle,
            old(self).state == before.state,
            same_frame(before, *old(self)),
        ensures
            resume_step(before, reply, *final(self), r),
    {
                match reply {
                    Reply::Entries(Ok(v)) => {
                        if v.len() > 0 {
                            let id = v[0].id;
                            self.pending = Pending::LoadPreview(v);
                            ask(Query::GetEntry(id))
                        } else {
                            self.state = AppState::Unlocked(UnlockedView::EntryList(EntryListState {
                                entries: v,
                                selected: 0,
                                table_rect: Rect::zero(),
                                preview_entry: None,
                            }));
                            no_command()
                        }
                    },
                    Reply::Entries(Err(e)) => {
                        match f {
                            ListFailure::Toast => {
                                self.toast_error("Error loading entries: ", &e);
                            },
                            _ => {
                                let st = self.take_state();
                                match st {
                                    AppState::FirstRun(s) => {
                                        let mut s = s;
                                        if f == ListFailure::FirstRun {
                                            s.error = Some(error_message("Failed to load entries: ", &e));
                                        }
                                        self.state = AppState::FirstRun(s);
                                    },
                                    AppState::Locked(s) => {
                                        let mut s = s;
                                        if f == ListFailure::Locked {
                                            s.error = Some(error_message("Failed to load entries: ", &e));
                                        }
                                        self.state = AppState::Locked(s);
                                    },
                                    other => {
                                        self.state = other;
                                    },
                                }
                            },
                        }
                        no_command()
                    },
                    _ => no_command(),
                }
            }

    fn resume_load_preview(&mut self, v: Vec<EntrySummary>, reply: Reply, Ghost(before): Ghost<App>) -> (r: Command)
        requires
            before.pending == Pending::LoadPreview(v),
            old(self).pending is Idle,
            old(self).state == before.state,
            same_frame(before, *old(self)),
        ensures
            resume_step(before, reply, *final(self), r),
    {
                match reply {
                    Reply::Loaded(r) => {
                        let preview = match r {
                            Ok(e) => Some(e),
                            Err(_) => None,
                        };
                        self.state = AppState::Unlocked(UnlockedView::EntryList(EntryListState {
                            entries: v,
                            selected: 0,
                            table_rect: Rect::zero(),
                            preview_entry: preview,
                        }));
                        no_command()
                    },
                    _ => no_command(),
                }
            }

    fn resume_preview(&mut self, reply: Reply, Ghost(before): Ghost<App>) -> (r: Command)
        requires
            before.pending == Pending::Preview,
            old(self).pending is Idle,
            old(self).state == before.state,
            same_frame(before, *old(self)),
        ensures
            resume_step(before, reply, *final(self), r),
    {
                match reply {
                    Reply::Loaded(r) => {
                        let st = self.take_state();
                        match st {
                            AppState::Unlocked(UnlockedView::EntryList(l)) => {
                                let mut l = l;
                                l.preview_entry = match r {
                                    Ok(e) => Some(e),
                                    Err(_) => None,
                                };
                                self.state = AppState::Unlocked(UnlockedView::EntryList(l));
                            },
                            other => {
                                self.state = other;
                            },
                        }
                        no_command()
                    },
                    _ => no_command(),
                }
            }

    fn resume_open_detail(&mut self, reply: Reply, Ghost(before): Ghost<App>) -> (r: Command)
        requires
            before.pending == Pending::OpenDetail,
            old(self).pending is Idle,
            old(self).state == before.state,
            same_frame(before, *old(self)),
        ensures
            resume_step(before, reply, *final(self), r),
    {
                match reply {
                    Reply::Loaded(Ok(e)) => {
                        self.state = AppState::Unlocked(UnlockedView::EntryDetail(EntryDetailState { entry: e, show_password: false }));
                        no_command()
                    },
                    Reply::Loaded(Err(e)) => {
                        self.toast_error("Error: ", &e);
                        no_command()
                    },
                    _ => no_command(),
                }
            }

    fn resume_open_edit(&mut self, toast_errors: bool, reply: Reply, Ghost(before): Ghost<App>) -> (r: Command)
        requires
            before.pending == (Pending::OpenEdit { toast_errors }),
            old(self).pending is Idle,
            old(self).state == before.state,
            same_frame(before, *old(self)),
        ensures
            resume_step(before, reply, *final(self), r),
    {
                match reply {
                    Reply::Loaded(Ok(e)) => {
                        self.state = AppState::Unlocked(UnlockedView::EntryEdit(edit_state_of(&e)));
                        no_command()
                    },
                    Reply::Loaded(Err(e)) => {
                        if toast_errors {
                            self.toast_error("Error: ", &e);
                        }
                        no_command()
                    },
                    _ => no_command(),
                }
            }

    fn resume_deleted(&mut self, after: AfterChange, reply: Reply, Ghost(before): Ghost<App>) -> (r: Command)
        requires
            before.pending == Pending::Deleted(after),
            old(self).pending is Idle,
            old(self).state == before.state,
            same_frame(before, *old(self)),
        ensures
            resume_step(before, reply, *final(self), r),
    {
                match reply {
                    Reply::Done(Ok(())) => {
                        self.show_toast(String::from_str("Entry deleted"), ToastKind::Success);
                        self.continue_after(after)
                    },
                    Reply::Done(Err(e)) => {
                        self.toast_error("Error: ", &e);
                        no_command()
                    },
                    _ => no_command(),
                }
            }

    fn resume_duplicated(&mut self, after: AfterChange, reply: Reply, Ghost(before): Ghost<App>) -> (r: Command)
        requires
            before.pending == Pending::Duplicated(after),
            old(self).pending is Idle,
            old(self).state == before.state,
            same_frame(before, *old(self)),
        ensures
            resume_step(before, reply, *final(self), r),
    {
                match reply {
                    Reply::Done(Ok(())) => {
                        self.show_toast(String::from_str("Entry duplicated"), ToastKind::Success);
                        self.continue_after(after)
                    },
                    Reply::Done(Err(e)) => {
                        self.toast_error("Error: ", &e);
                        no_command()
                    },
                    _ => no_command(),
                }
            }

    fn resume_reload(&mut self, reply: Reply, Ghost(before): Ghost<App>) -> (r: Command)
        requires
            before.pending == Pending::Reload,
            old(self).pending is Idle,
            old(self).state == before.state,
            same_frame(before, *old(self)),
        ensures
            resume_step(before, reply, *final(self), r),
    {
                match reply {
                    Reply::Entries(Ok(v)) => {
                        let st = self.take_state();
                        match st {
                            AppState::Unlocked(UnlockedView::EntryList(l)) => {
                                let mut l = l;
                                let n = v.len();
                                let sel = if l.selected >= n {
                                    if n > 0 { n - 1 } else { 0 }
                                } else {
                                    l.selected
                                };
                                l.entries = v;
                                self.list_select(l, sel)
                            },
                            other => {
                                self.state = other;
                                no_command()
                            },
                        }
                    },
                    _ => no_command(),
                }
            }

    fn resume_copy_from(&mut self, f: CopyField, notice: CopyNotice, reply: Reply, Ghost(before): Ghost<App>) -> (r: Command)
        requires
            before.pending == Pending::CopyFrom(f, notice),
            old(self).pending is Idle,
            old(self).state == before.state,
            same_frame(before, *old(self)),
        ensures
            resume_step(before, reply, *final(self), r),
    {
                match reply {
                    Reply::Loaded(Ok(e)) => {
                        let text = match f {
                            CopyField::Password => Some(e.password),
                            CopyField::Username => e.username,
                            CopyField::Url => e.url,
                        };
                        match text {
                            Some(t) => {
                                self.pending = Pending::Copied(notice);
                                ask(Query::Copy(t))
                            },
                            None => no_command(),
                        }
                    },
                    _ => no_command(),
                }
            }

    fn resume_copied(&mut self, notice: CopyNotice, reply: Reply, Ghost(before): Ghost<App>) -> (r: Command)
        requires
            before.pending == Pending::Copied(notice),
            old(self).pending is Idle,
            old(self).state == before.state,
            same_frame(before, *old(self)),
        ensures
            resume_step(before, reply, *final(self), r),
    {
                match reply {
                    Reply::Copied(ok) => {
                        self.report_copy(notice, ok);
                        no_command()
                    },
                    _ => no_command(),
                }
            }

    fn resume_duplicate_load(&mut self, after: AfterChange, reply: Reply, Ghost(before): Ghost<App>) -> (r: Command)
        requires
            before.pending == Pending::DuplicateLoad(after),
            old(self).pending is Idle,
            old(self).state == before.state,
            same_frame(before, *old(self)),
        ensures
            resume_step(before, reply, *final(self), r),
    {
                match reply {
                    Reply::Loaded(Ok(e)) => {
                        self.pending = Pending::DuplicateStamp(e, after);
                        ask(Query::Stamp)
                    },
                    _ => no_command(),
                }
            }

    fn resume_duplicate_stamp(&mut self, e: Entry, after: AfterChange, reply: Reply, Ghost(before): Ghost<App>) -> (r: Command)
        requires
            before.pending == Pending::DuplicateStamp(e, after),
            old(self).pending is Idle,
            old(self).state == before.state,
            same_frame(before, *old(self)),
        ensures
            resume_step(before, reply, *final(self), r),
    {
                match reply {
                    Reply::Stamp(now, fresh) => {
                        let mut d = e;
                        d.id = fresh;
                        d.title = d.title.concat(" (copy)");
                        d.created_at = now;
                        d.updated_at = now;
                        self.pending = Pending::Duplicated(after);
                        ask(Query::CreateEntry(d))
                    },
                    _ => no_command(),
                }
            }

    fn resume_generate(&mut self, reply: Reply, Ghost(before): Ghost<App>) -> (r: Command)
        requires
            before.pending == Pending::Generate,
            old(self).pending is Idle,
            old(self).state == before.state,
            same_frame(before, *old(self)),
        ensures
            resume_step(before, reply, *final(self), r),
    {
                match reply {
                    Reply::Generated(Some(Ok(pw))) => {
                        let st = self.take_state();
                        match st {
                            AppState::Unlocked(UnlockedView::EntryEdit(e)) => {
                                let mut e = e;
                                e.password = pw;
                                e.dirty = true;
                                self.state = AppState::Unlocked(UnlockedView::EntryEdit(e));
                            },
                            other => {
                                self.state = other;
                            },
                        }
                        self.show_toast(String::from_str("Password generated"), ToastKind::Success);
                        no_command()
                    },
                    Reply::Generated(Some(Err(e))) => {
                        self.toast_error("Generator error: ", &e);
                        no_command()
                    },
                    _ => no_command(),
                }
            }

    fn resume_save_stamp(&mut self, reply: Reply, Ghost(before): Ghost<App>) -> (r: Command)
        requires
            before.pending == Pending::SaveStamp,
            old(self).pending is Idle,
            old(self).state == before.state,
            same_frame(before, *old(self)),
        ensures
            resume_step(before, reply, *final(self), r),
    {
                match reply {
                    Reply::Stamp(now, fresh) => {
                        let st = self.take_state();
                        match st {
                            AppState::Unlocked(UnlockedView::EntryEdit(e)) => {
                                let entry = saved_entry_of(&e, now, fresh);
                                let is_update = e.id.is_some();
                                self.state = AppState::Unlocked(UnlockedView::EntryEdit(e));
                                self.pending = Pending::Saved;
                                if is_update {
                                    ask(Query::UpdateEntry(entry))
                                } else {
                                    ask(Query::CreateEntry(entry))
                                }
                            },
                            other => {
                                self.state = other;
                                no_command()
                            },
                        }
                    },
                    _ => no_command(),
                }
            }

    fn resume_saved(&mut self, reply: Reply, Ghost(before): Ghost<App>) -> (r: Command)
        requires
            before.pending == Pending::Saved,
            old(self).pending is Idle,
            old(self).state == before.state,
            same_frame(before, *old(self)),
        ensures
            resume_step(before, reply, *final(self), r),
    {
                match reply {
                    Reply::Done(Ok(())) => {
                        self.show_toast(String::from_str("Entry saved"), ToastKind::Success);
                        self.continue_after(AfterChange::PopToList)
                    },
                    Reply::Done(Err(e)) => {
                        self.toast_error("Error: ", &e);
                        no_command()
                    },
                    _ => no_command(),
                }
            }

    fn resume_search_results(&mut self, reply: Reply, Ghost(before): Ghost<App>) -> (r: Command)
        requires
            before.pending == Pending::SearchResults,
            old(self).pending is Idle,
            old(self).state == before.state,
            same_frame(before, *old(self)),
        ensures
            resume_step(before, reply, *final(self), r),
    {
                match reply {
                    Reply::Entries(r) => {
                        let st = self.take_state();
                        match st {
                            AppState::Unlocked(UnlockedView::Search(q)) => {
                                let mut q = q;
                                match r {
                                    Ok(v) => {
                                        q.results = v;
                                        q.selected = 0;
                                    },
                                    Err(_) => {
                                        q.results = Vec::new();
                                    },
                                }
                                self.state = AppState::Unlocked(UnlockedView::Search(q));
                            },
                            other => {
                                self.state = other;
                            },
                        }
                        no_command()
                    },
                    _ => no_command(),
                }
            }

    fn resume_save_settings(&mut self, reply: Reply, Ghost(before): Ghost<App>) -> (r: Command)
        requires
            before.pending == Pending::SaveSettings,
            old(self).pending is Idle,
            old(self).state == before.state,
            same_frame(before, *old(self)),
        ensures
            resume_step(before, reply, *final(self), r),
    {
                match reply {
                    Reply::Saved(Ok(())) => {
                        let st = self.take_state();
                        match st {
                            AppState::Unlocked(UnlockedView::Settings(s)) => {
                                self.config = s.config.clone();
                                let hide = s.config.hide_metadata;
                                self.state = AppState::Unlocked(UnlockedView::Settings(s));
                                self.show_toast(String::from_str("Settings saved"), ToastKind::Success);
                                self.pending = Pending::LoadList(ListFailure::Toast);
                                let mut effects: Vec<Effect> = Vec::new();
                                effects.push(Effect::SetHideMetadata(hide));
                                assert(effects@ =~= seq![Effect::SetHideMetadata(hide)]);
                                Command { effects, query: Some(Query::ListEntries) }
                            },
                            other => {
                                self.state = other;
                                no_command()
                            },
                        }
                    },
                    Reply::Saved(Err(m)) => {
                        let msg = String::from_str("Save failed: ").concat(m.as_str());
                        self.show_toast(msg, ToastKind::Error);
                        no_command()
                    },
                    _ => no_command(),
                }
            }

    fn resume_export(&mut self, reply: Reply, Ghost(before): Ghost<App>) -> (r: Command)
        requires
            before.pending == Pending::Export,
            old(self).pending is Idle,
            old(self).state == before.state,
            same_frame(before, *old(self)),
        ensures
            resume_step(before, reply, *final(self), r),
    {
                match reply {
                    Reply::Exported(ExportOutcome::Written { count, name }) => {
                        let msg = String::from_str("Exported ").concat(crate::text::u64_to_decimal(count as u64).as_str()).concat(" to ").concat(name.as_str());
                        self.show_toast(msg, ToastKind::Success);
                        no_command()
                    },
                    Reply::Exported(ExportOutcome::WriteFailed(m)) => {
                        let msg = String::from_str("Export failed: ").concat(m.as_str());
                        self.show_toast(msg, ToastKind::Error);
                        no_command()
                    },
                    Reply::Exported(ExportOutcome::Failed(e)) => {
                        self.toast_error("Export error: ", &e);
                        no_command()
                    },
                    _ => no_command(),
                }
            }

    fn resume_import(&mut self, reply: Reply, Ghost(before): Ghost<App>) -> (r: Command)
        requires
            before.pending == Pending::Import,
            old(self).pending is Idle,
            old(self).state == before.state,
            same_frame(before, *old(self)),
        ensures
            resume_step(before, reply, *final(self), r),
    {
                match reply {
                    Reply::Imported(ImportOutcome::Unreadable(m)) => {
                        let msg = String::from_str("Import file not found: ").concat(m.as_str()).concat(" \u{2014} place import.json in ~/.local/share/krypton/");
                        self.show_toast(msg, ToastKind::Error);
                        no_command()
                    },
                    Reply::Imported(ImportOutcome::Failed(e)) => {
                        self.toast_error("Import error: ", &e);
                        no_command()
                    },
                    Reply::Imported(ImportOutcome::Read(v)) => {
                        if v.len() == 0 {
                            self.finish_import(0)
                        } else {
                            let count = v.len();
                            self.store_next(v, count)
                        }
                    },
                    _ => no_command(),
                }
            }

    fn resume_import_next(&mut self, rest: Vec<Entry>, count: usize, reply: Reply, Ghost(before): Ghost<App>) -> (r: Command)
        requires
            before.pending == (Pending::ImportNext { rest, count }),
            old(self).pending is Idle,
            old(self).state == before.state,
            same_frame(before, *old(self)),
        ensures
            resume_step(before, reply, *final(self), r),
    {
                match reply {
                    Reply::Done(Ok(())) => {
                        if rest.len() == 0 {
                            self.finish_import(count)
                        } else {
                            self.store_next(rest, count)
                        }
                    },
                    Reply::Done(Err(e)) => {
                        self.toast_error("Import failed at entry: ", &e);
                        no_command()
                    },
                    _ => no_command(),
                }
            }

    fn resume_idle(&mut self, reply: Reply, Ghost(before): Ghost<App>) -> (r: Command)
        requires
            before.pending == Pending::Idle,
            old(self).pending is Idle,
            old(self).state == before.state,
            same_frame(before, *old(self)),
        ensures
            resume_step(before, reply, *final(self), r),
    {
                no_command()
            }

    fn handle_first_run(&mut self, s: FirstRunState, action: Action, Ghost(before): Ghost<App>) -> (r: Command)
        requires
            old(self).pending is Idle,
            same_frame(before, *old(self)),
        ensures
            first_run_step(before, s, action, *final(self), r),
    {
        let mut s = s;
        let ghost s0 = s;
        match action {
            Action::CharInput(c) => {
                if s.step == FirstRunStep::EnterPassword {
                    push_char(&mut s.password, c);
                } else {
                    push_char(&mut s.confirm, c);
                }
                self.state = AppState::FirstRun(s);
                no_command()
            },
            Action::Backspace => {
                if s.step == FirstRunStep::EnterPassword {
                    pop_char(&mut s.password);
                } else {
                    pop_char(&mut s.confirm);
                }
                self.state = AppState::FirstRun(s);
                no_command()
            },
            Action::Submit => {
                if s.step == FirstRunStep::EnterPassword {
                    if s.password.unicode_len() == 0 {
                        s.error = Some(String::from_str("Password cannot be empty"));
                    } else {
                        s.step = FirstRunStep::ConfirmPassword;
                        s.error = None;
                    }
                    self.state = AppState::FirstRun(s);
                    no_command()
                } else if !(s.password == s.confirm) {
                    s.error = Some(String::from_str("Passwords do not match"));
                    s.confirm = String::new();
                    self.state = AppState::FirstRun(s);
                    no_command()
                } else {
                    let pw = s.password.clone();
                    self.state = AppState::FirstRun(s);
                    self.pending = Pending::CreateVault;
                    ask(Query::CreateVault(pw))
                }
            },
            _ => {
                self.state = AppState::FirstRun(s);
                no_command()
            },
        }
    }

    fn handle_locked(&mut self, s: LockedState, action: Action, Ghost(before): Ghost<App>) -> (r: Command)
        requires
            old(self).pending is Idle,
            same_frame(before, *old(self)),
        ensures
            locked_step(before, s, action, *final(self), r),
    {
        let mut s = s;
        if s.reset_step.is_some() {
            match action {
                Action::Back => {
                    s.reset_step = None;
                    self.state = AppState::Locked(s);
                    no_command()
                },
                Action::Tick => {
                    match s.reset_step {
                        Some(ResetStep::Waiting { seconds }) => {
                            let left = if seconds > 0 { seconds - 1 } else { 0 };
                            if left == 0 {
                                self.state = AppState::FirstRun(FirstRunState::new());
                                let mut effects: Vec<Effect> = Vec::new();
                                effects.push(Effect::RemoveVaultFile);
                                assert(effects@ =~= seq![Effect::RemoveVaultFile]);
                                Command { effects, query: None }
                            } else {
                                s.reset_step = Some(ResetStep::Waiting { seconds: left });
                                self.state = AppState::Locked(s);
                                no_command()
                            }
                        },
                        _ => {
                            self.state = AppState::Locked(s);
                            no_command()
                        },
                    }
                },
                Action::CharInput(c) => {
                    let typing = match &s.reset_step {
                        Some(ResetStep::TypingConfirm { .. }) => true,
                        _ => false,
                    };
                    if typing {
                        let old_step = s.reset_step;
                        match old_step {
                            Some(ResetStep::TypingConfirm { buffer }) => {
                                let mut buffer = buffer;
                                push_char(&mut buffer, c);
                                if crate::config::same_text(buffer.as_str(), "I accept the risks") {
                                    s.reset_step = Some(ResetStep::Waiting { seconds: 10 });
                                } else {
                                    s.reset_step = Some(ResetStep::TypingConfirm { buffer });
                                }
                            },
                            other => {
                                s.reset_step = other;
                            },
                        }
                    }
                    self.state = AppState::Locked(s);
                    no_command()
                },
                Action::Backspace => {
                    let old_step = s.reset_step;
                    match old_step {
                        Some(ResetStep::TypingConfirm { buffer }) => {
                            let mut buffer = buffer;
                            pop_char(&mut buffer);
                            s.reset_step = Some(ResetStep::TypingConfirm { buffer });
                        },
                        other => {
                            s.reset_step = other;
                        },
                    }
                    self.state = AppState::Locked(s);
                    no_command()
                },
                _ => {
                    self.state = AppState::Locked(s);
                    no_command()
                },
            }
        } else {
            match action {
                Action::StartReset => {
                    s.reset_step = Some(ResetStep::TypingConfirm { buffer: String::new() });
                    self.state = AppState::Locked(s);
                    no_command()
                },
                Action::CharInput(c) => {
                    push_char(&mut s.input, c);
                    self.state = AppState::Locked(s);
                    no_command()
                },
                Action::Backspace => {
                    pop_char(&mut s.input);
                    self.state = AppState::Locked(s);
                    no_command()
                },
                Action::ToggleVisibility => {
                    s.hidden = !s.hidden;
                    self.state = AppState::Locked(s);
                    no_command()
                },
                Action::Submit => {
                    let pw = s.input.clone();
                    self.state = AppState::Locked(s);
                    self.pending = Pending::Unlock;
                    ask(Query::Unlock(pw))
                },
                _ => {
                    self.state = AppState::Locked(s);
                    no_command()
                },
            }
        }
    }
}

// ── Laws ─────────────────────────────────────────────────────────────────

/// Whether `v` is a screen with its own help key binding (every unlocked
/// screen but the help screen itself).
pub open spec fn has_help(v: UnlockedView) -> bool {
    !(v is Help)
}

/// From any unlocked screen, opening help and pressing Back returns to
/// exactly the screen that was showing.
pub proof fn lemma_help_returns(a0: App, v: UnlockedView, a1: App, c1: Command, a2: App, c2: Command)
    requires
        a0.state == AppState::Unlocked(v),
        has_help(v),
        app_step(a0, Action::Help, a1, c1),
        app_step(a1, Action::Back, a2, c2),
    ensures
        a2.state == a0.state,
        nothing(c1) && nothing(c2),
{
    match a1.state {
        AppState::Unlocked(UnlockedView::Help(b)) => {
            assert(*b == v);
        },
        _ => {},
    }
}

/// With confirmation configured, the first delete press on the list only
/// arms the confirmation, the second press on the same entry asks to delete
/// it, and the service's answer is reported: "Entry deleted" and a reload
/// on success, the error otherwise.
pub proof fn lemma_delete_needs_second_press(
    a0: App, s: EntryListState, a1: App, c1: Command, a2: App, c2: Command, res: crate::error::Result<()>, a3: App, c3: Command,
)
    requires
        a0.state == AppState::Unlocked(UnlockedView::EntryList(s)),
        a0.config.confirm_before_delete,
        a0.confirm_action is None,
        s.selected < s.entries@.len(),
        app_step(a0, Action::DeleteEntry, a1, c1),
        app_step(a1, Action::DeleteEntry, a2, c2),
        resume_step(a2, Reply::Done(res), a3, c3),
    ensures
        c1.query is None,
        a1.confirm_action == Some(ConfirmAction::DeleteEntry(s.entries@[s.selected as int].id)),
        toast_is(a1, "Press d again to confirm delete, Esc to cancel"@, ToastKind::Info),
        c2.query matches Some(Query::DeleteEntry(id)) && id == s.entries@[s.selected as int].id,
        a2.confirm_action is None,
        res is Ok ==> toast_is(a3, "Entry deleted"@, ToastKind::Success) && (c3.query matches Some(Query::ListEntries))
            && a3.pending is Reload,
        res matches Err(e) ==> error_toast(a3, "Error: "@, e) && nothing(c3),
{
}

/// On the list, every action but a delete press or a tick drops a pending
/// delete confirmation, so only two consecutive presses delete.
pub proof fn lemma_other_action_disarms(a0: App, s: EntryListState, a: Action, a1: App, c1: Command)
    requires
        a0.state == AppState::Unlocked(UnlockedView::EntryList(s)),
        a != Action::DeleteEntry,
        a != Action::Tick,
        app_step(a0, a, a1, c1),
    ensures
        a1.confirm_action is None,
{
}

/// The selection a list movement leads to.
pub open spec fn moved_selection(s: EntryListState, a: Action) -> int {
    let n = s.entries@.len();
    let sel = s.selected as int;
    match a {
        Action::Up => if sel > 0 { sel - 1 } else { sel },
        Action::Down => if sel + 1 < n { sel + 1 } else { sel },
        Action::PageUp => if sel >= 10 { sel - 10 } else { 0 },
        _ => if sel + 10 < n - 1 { sel + 10 } else { n - 1 },
    }
}

/// Moving the selection of a non-empty list keeps it on an entry, asks for
/// that entry, and the answer becomes the preview (none on an error); the
/// entries stay as they were.
pub proof fn lemma_move_then_preview(
    a0: App, s: EntryListState, a: Action, a1: App, c1: Command, r: crate::error::Result<Entry>, a2: App, c2: Command,
)
    requires
        a0.state == AppState::Unlocked(UnlockedView::EntryList(s)),
        s.selected < s.entries@.len(),
        a == Action::Up || a == Action::Down || a == Action::PageUp || a == Action::PageDown,
        app_step(a0, a, a1, c1),
        resume_step(a1, Reply::Loaded(r), a2, c2),
    ensures
        0 <= moved_selection(s, a) < s.entries@.len(),
        c1.query matches Some(Query::GetEntry(id)) && id == s.entries@[moved_selection(s, a)].id,
        nothing(c2) && a2.pending is Idle,
        a2.state == AppState::Unlocked(UnlockedView::EntryList(EntryListState {
            selected: moved_selection(s, a) as usize,
            preview_entry: match r {
                Ok(e) => Some(e),
                Err(_) => None,
            },
            ..s
        })),
{
    let t = moved_selection(s, a);
    assert(0 <= t < s.entries@.len());
    assert(s.entries@.len() == s.entries.len());
    assert((t as usize) as int == t);
    assert(list_moved(s, t as usize, a1, c1));
    assert(a1.pending == Pending::Preview);
    let l1 = EntryListState { selected: t as usize, ..s };
    assert(a1.state == AppState::Unlocked(UnlockedView::EntryList(l1)));
    let p = match r {
        Ok(e) => Some(e),
        Err(_) => None,
    };
    assert(EntryListState { preview_entry: p, ..l1 } == EntryListState { selected: t as usize, preview_entry: p, ..s });
}

/// In the editor, moving between fields keeps the active field among the
/// five fields (title, username, password, url, notes) and changes
/// nothing else.
pub proof fn lemma_field_stays_in_range(a0: App, e: EntryEditState, a: Action, a1: App, c1: Command)
    requires
        a0.state == AppState::Unlocked(UnlockedView::EntryEdit(e)),
        e.active_field <= 4,
        a == Action::NextField || a == Action::PrevField,
        app_step(a0, a, a1, c1),
    ensures
        nothing(c1),
        a1.state == AppState::Unlocked(UnlockedView::EntryEdit(EntryEditState {
            active_field: if a == Action::NextField {
                if e.active_field < 4 { (e.active_field + 1) as usize } else { 4 }
            } else {
                if e.active_field > 0 { (e.active_field - 1) as usize } else { 0 }
            },
            ..e
        })),
        a1.state->Unlocked_0->EntryEdit_0.active_field <= 4,
{
}

/// In the editor, typing a character and then deleting it restores every
/// field (the entry stays marked as changed).
pub proof fn lemma_type_then_erase(a0: App, e: EntryEditState, ch: char, a1: App, c1: Command, a2: App, c2: Command)
    requires
        a0.state == AppState::Unlocked(UnlockedView::EntryEdit(e)),
        app_step(a0, Action::CharInput(ch), a1, c1),
        app_step(a1, Action::Backspace, a2, c2),
    ensures
        a2.state matches AppState::Unlocked(UnlockedView::EntryEdit(t)),
        ({
            let t = a2.state->Unlocked_0->EntryEdit_0;
            &&& t.title@ == e.title@ && t.username@ == e.username@ && t.password@ == e.password@
            &&& t.url@ == e.url@ && t.notes@ == e.notes@ && t.active_field == e.active_field
            &&& t.id == e.id && t.existing_password == e.existing_password
        }),
{
    let t1 = a1.state->Unlocked_0->EntryEdit_0;
    assert(e.title@.push(ch).drop_last() =~= e.title@);
    assert(e.username@.push(ch).drop_last() =~= e.username@);
    assert(e.password@.push(ch).drop_last() =~= e.password@);
    assert(e.url@.push(ch).drop_last() =~= e.url@);
    assert(e.notes@.push(ch).drop_last() =~= e.notes@);
}

/// `apps[0]`, the actions `acts` applied in turn give `apps[1]`, `apps[2]`,
/// ..., with commands `cmds`.
pub open spec fn runs(apps: Seq<App>, acts: Seq<Action>, cmds: Seq<Command>) -> bool {
    &&& apps.len() == acts.len() + 1
    &&& cmds.len() == acts.len()
    &&& forall|i: int| #![trigger cmds[i]] 0 <= i < acts.len() ==> app_step(apps[i], acts[i], apps[i + 1], cmds[i])
}

/// Every action in `acts` is a tick.
pub open spec fn all_ticks(acts: Seq<Action>) -> bool {
    forall|i: int| 0 <= i < acts.len() ==> #[trigger] acts[i] == Action::Tick
}

/// A toast with `n` ticks left stays as it is through `n - 1` ticks and is
/// gone at the `n`-th; `show_toast` gives it sixty.
pub proof fn lemma_toast_lasts(apps: Seq<App>, acts: Seq<Action>, cmds: Seq<Command>)
    requires
        runs(apps, acts, cmds),
        all_ticks(acts),
        acts.len() == apps[0].toast_ticks,
        apps[0].toast_ticks > 0,
    ensures
        forall|k: int| 0 <= k < acts.len() ==> #[trigger] apps[k].toast == apps[0].toast
            && apps[k].toast_ticks == apps[0].toast_ticks - k,
        apps[acts.len() as int].toast is None,
        apps[acts.len() as int].toast_ticks == 0,
{
    toast_countdown(apps, acts, cmds, acts.len() as int);
}

proof fn toast_countdown(apps: Seq<App>, acts: Seq<Action>, cmds: Seq<Command>, k: int)
    requires
        runs(apps, acts, cmds),
        all_ticks(acts),
        acts.len() == apps[0].toast_ticks,
        0 <= k <= acts.len(),
    ensures
        forall|j: int| 0 <= j < k ==> #[trigger] apps[j].toast == apps[0].toast
            && apps[j].toast_ticks == apps[0].toast_ticks - j,
        k < acts.len() ==> apps[k].toast == apps[0].toast,
        apps[k].toast_ticks == apps[0].toast_ticks - k,
        k == acts.len() && k > 0 ==> apps[k].toast is None,
    decreases k,
{
    if k > 0 {
        toast_countdown(apps, acts, cmds, k - 1);
        assert(acts[k - 1] == Action::Tick);
        let _ = cmds[k - 1];
        assert(app_step(apps[k - 1], Action::Tick, apps[k], cmds[k - 1]));
    }
}

/// The unlock screen `s` with the reset countdown at `seconds`.
pub open spec fn counting(s: LockedState, seconds: int) -> AppState {
    AppState::Locked(LockedState { reset_step: Some(ResetStep::Waiting { seconds: seconds as u64 }), ..s })
}

/// A reset countdown of `n` seconds: through `n - 1` ticks the unlock
/// screen only counts down and nothing is asked of the outside; the `n`-th
/// tick asks to remove the vault file and shows an empty first-run screen.
pub proof fn lemma_reset_countdown(apps: Seq<App>, acts: Seq<Action>, cmds: Seq<Command>, s: LockedState, n: u64)
    requires
        runs(apps, acts, cmds),
        all_ticks(acts),
        n >= 1,
        acts.len() == n,
        apps[0].state == counting(s, n as int),
    ensures
        forall|k: int| 0 <= k < n ==> #[trigger] apps[k].state == counting(s, n - k),
        forall|k: int| 0 <= k < n - 1 ==> nothing(#[trigger] cmds[k]),
        cmds[n - 1].effects@ == seq![Effect::RemoveVaultFile] && cmds[n - 1].query is None,
        apps[n as int].state matches AppState::FirstRun(f),
        apps[n as int].state->FirstRun_0.step == FirstRunStep::EnterPassword,
        apps[n as int].state->FirstRun_0.password@.len() == 0,
        apps[n as int].state->FirstRun_0.error is None,
{
    countdown_prefix(apps, acts, cmds, s, n, (n - 1) as int);
    let last = (n - 1) as int;
    assert(acts[last] == Action::Tick);
    let _ = cmds[last];
    assert(app_step(apps[last], Action::Tick, apps[last + 1], cmds[last]));
    assert(apps[last].state == counting(s, 1));
}

proof fn countdown_prefix(apps: Seq<App>, acts: Seq<Action>, cmds: Seq<Command>, s: LockedState, n: u64, k: int)
    requires
        runs(apps, acts, cmds),
        all_ticks(acts),
        n >= 1,
        acts.len() == n,
        apps[0].state == counting(s, n as int),
        0 <= k < n,
    ensures
        forall|j: int| 0 <= j <= k ==> #[trigger] apps[j].state == counting(s, n - j),
        forall|j: int| 0 <= j < k ==> nothing(#[trigger] cmds[j]),
    decreases k,
{
    if k > 0 {
        countdown_prefix(apps, acts, cmds, s, n, k - 1);
        assert(acts[k - 1] == Action::Tick);
        let _ = cmds[k - 1];
        assert(app_step(apps[k - 1], Action::Tick, apps[k], cmds[k - 1]));
        assert(apps[k - 1].state == counting(s, n - (k - 1)));
        assert(LockedState { reset_step: Some(ResetStep::Waiting { seconds: ((n - (k - 1)) as u64 - 1) as u64 }), ..LockedState { reset_step: Some(ResetStep::Waiting { seconds: (n - (k - 1)) as u64 }), ..s } }
            == LockedState { reset_step: Some(ResetStep::Waiting { seconds: (n - k) as u64 }), ..s });
    }
}

/// The unlock screen `st` is in the reset flow, typing the confirmation
/// with `typed` so far, and its password input is `input`.
pub open spec fn typing_reset(st: AppState, input: Seq<char>, typed: Seq<char>) -> bool {
    &&& st matches AppState::Locked(l)
    &&& st->Locked_0.input@ == input
    &&& st->Locked_0.reset_step matches Some(ResetStep::TypingConfirm { buffer })
    &&& st->Locked_0.reset_step->Some_0->buffer@ == typed
}

/// Typing the confirmation sentence of a vault reset character by character
/// keeps collecting it (never touching the password input) until the last
/// character, which starts a ten-second countdown; nothing is asked of the
/// outside meanwhile.
pub proof fn lemma_reset_sentence_starts_countdown(apps: Seq<App>, acts: Seq<Action>, cmds: Seq<Command>, input: Seq<char>)
    requires
        runs(apps, acts, cmds),
        acts.len() == reset_sentence().len(),
        forall|i: int| 0 <= i < acts.len() ==> #[trigger] acts[i] == Action::CharInput(reset_sentence()[i]),
        typing_reset(apps[0].state, input, Seq::empty()),
    ensures
        forall|k: int| 0 <= k < acts.len() ==> typing_reset(#[trigger] apps[k].state, input, reset_sentence().subrange(0, k)),
        forall|k: int| 0 <= k < acts.len() ==> nothing(#[trigger] cmds[k]),
        apps[acts.len() as int].state matches AppState::Locked(l),
        apps[acts.len() as int].state->Locked_0.input@ == input,
        apps[acts.len() as int].state->Locked_0.reset_step == Some(ResetStep::Waiting { seconds: 10 }),
{
    reveal_strlit("I accept the risks");
    assert(reset_sentence().len() == 18);
    let n = acts.len() as int;
    reset_typing_prefix(apps, acts, cmds, input, n - 1);
    let st = apps[n - 1].state;
    assert(acts[n - 1] == Action::CharInput(reset_sentence()[n - 1]));
    let _ = cmds[n - 1];
    assert(app_step(apps[n - 1], acts[n - 1], apps[n], cmds[n - 1]));
    assert(reset_sentence().subrange(0, n - 1).push(reset_sentence()[n - 1]) =~= reset_sentence());
}

proof fn reset_typing_prefix(apps: Seq<App>, acts: Seq<Action>, cmds: Seq<Command>, input: Seq<char>, k: int)
    requires
        runs(apps, acts, cmds),
        acts.len() == reset_sentence().len(),
        forall|i: int| 0 <= i < acts.len() ==> #[trigger] acts[i] == Action::CharInput(reset_sentence()[i]),
        typing_reset(apps[0].state, input, Seq::empty()),
        0 <= k < acts.len(),
    ensures
        forall|j: int| 0 <= j <= k ==> typing_reset(#[trigger] apps[j].state, input, reset_sentence().subrange(0, j)),
        forall|j: int| 0 <= j < k ==> nothing(#[trigger] cmds[j]),
    decreases k,
{
    if k == 0 {
        assert(reset_sentence().subrange(0, 0) =~= Seq::<char>::empty());
    } else {
        reset_typing_prefix(apps, acts, cmds, input, k - 1);
        assert(acts[k - 1] == Action::CharInput(reset_sentence()[k - 1]));
        let _ = cmds[k - 1];
        assert(app_step(apps[k - 1], acts[k - 1], apps[k], cmds[k - 1]));
        let prev = reset_sentence().subrange(0, k - 1);
        assert(typing_reset(apps[k - 1].state, input, prev));
        assert(prev.push(reset_sentence()[k - 1]) =~= reset_sentence().subrange(0, k));
        assert(reset_sentence().subrange(0, k).len() != reset_sentence().len());
    }
}

/// Saving in the editor stores what was typed: an existing entry is
/// updated under its own identifier, and its password becomes the typed one
/// unless the password field was left empty, in which case the stored
/// password is kept; a new entry is created under the fresh identifier with
/// the typed password, created and updated at the stamp's time.
pub proof fn lemma_save_stores_typed_fields(
    a0: App, e: EntryEditState, a1: App, c1: Command, now: i64, fresh: EntryId, a2: App, c2: Command,
)
    requires
        a0.state == AppState::Unlocked(UnlockedView::EntryEdit(e)),
        !crate::text::blank(e.title@),
        app_step(a0, Action::SaveEntry, a1, c1),
        resume_step(a1, Reply::Stamp(now, fresh), a2, c2),
    ensures
        c1.query matches Some(Query::Stamp),
        e.id matches Some(id) ==> ({
            &&& c2.query matches Some(Query::UpdateEntry(d))
            &&& c2.query->Some_0->UpdateEntry_0.id == id
            &&& e.password@.len() > 0 ==> c2.query->Some_0->UpdateEntry_0.password@ == e.password@
            &&& e.password@.len() == 0 ==> c2.query->Some_0->UpdateEntry_0.password@ == e.existing_password@
            &&& c2.query->Some_0->UpdateEntry_0.title@ == e.title@
            &&& c2.query->Some_0->UpdateEntry_0.created_at == e.initial_created_at
            &&& c2.query->Some_0->UpdateEntry_0.updated_at == now
        }),
        e.id is None ==> ({
            &&& c2.query matches Some(Query::CreateEntry(d))
            &&& c2.query->Some_0->CreateEntry_0.id == fresh
            &&& c2.query->Some_0->CreateEntry_0.password@ == e.password@
            &&& c2.query->Some_0->CreateEntry_0.title@ == e.title@
            &&& c2.query->Some_0->CreateEntry_0.created_at == now
            &&& c2.query->Some_0->CreateEntry_0.updated_at == now
        }),
{
    assert(a1.pending is SaveStamp);
    assert(a1.state == a0.state);
}

/// Asking for a generated password from the password field hands the
/// generator exactly the configured length and character classes; from any
/// other field nothing is asked.
pub proof fn lemma_generate_uses_configuration(a0: App, e: EntryEditState, a1: App, c1: Command)
    requires
        a0.state == AppState::Unlocked(UnlockedView::EntryEdit(e)),
        app_step(a0, Action::GeneratePassword, a1, c1),
    ensures
        e.active_field == 2 ==> ({
            &&& c1.query matches Some(Query::Generate(g))
            &&& c1.query->Some_0->Generate_0.length == a0.config.password_length
            &&& c1.query->Some_0->Generate_0.uppercase == a0.config.password_uppercase
            &&& c1.query->Some_0->Generate_0.lowercase == a0.config.password_lowercase
            &&& c1.query->Some_0->Generate_0.digits == a0.config.password_digits
            &&& c1.query->Some_0->Generate_0.symbols == a0.config.password_symbols
        }),
        e.active_field != 2 ==> c1.query is None,
{
}

/// The text asked to be copied for a copy action on entry `e`: the
/// password, the username or the url, as the action names; `None` when the
/// entry has no such field.
pub open spec fn copy_target(a: Action, e: Entry) -> Option<Seq<char>> {
    match a {
        Action::CopyPassword => Some(e.password@),
        Action::CopyUsername => match e.username {
            Some(u) => Some(u@),
            None => None,
        },
        _ => match e.url {
            Some(u) => Some(u@),
            None => None,
        },
    }
}

/// Copying from the list loads the selected entry and then asks to copy
/// exactly the field the key names (password, username or url) of the
/// entry that came back, and nothing when that entry lacks the field.
pub proof fn lemma_list_copies_named_field(
    a0: App, s: EntryListState, a: Action, a1: App, c1: Command, e: Entry, a2: App, c2: Command,
)
    requires
        a0.state == AppState::Unlocked(UnlockedView::EntryList(s)),
        s.selected < s.entries@.len(),
        a == Action::CopyPassword || a == Action::CopyUsername || a == Action::CopyUrl,
        app_step(a0, a, a1, c1),
        resume_step(a1, Reply::Loaded(Ok(e)), a2, c2),
    ensures
        c1.query matches Some(Query::GetEntry(id)) && id == s.entries@[s.selected as int].id,
        copy_target(a, e) matches Some(t) ==> (c2.query matches Some(Query::Copy(x)) && x@ == t),
        copy_target(a, e) is None ==> c2.query is None,
{
    assert(a1.pending is CopyFrom);
}

/// Copying from the search results does the same for the password and the
/// username.
pub proof fn lemma_search_copies_named_field(
    a0: App, q: SearchState, a: Action, a1: App, c1: Command, e: Entry, a2: App, c2: Command,
)
    requires
        a0.state == AppState::Unlocked(UnlockedView::Search(q)),
        q.selected < q.results@.len(),
        a == Action::CopyPassword || a == Action::CopyUsername,
        app_step(a0, a, a1, c1),
        resume_step(a1, Reply::Loaded(Ok(e)), a2, c2),
    ensures
        c1.query matches Some(Query::GetEntry(id)) && id == q.results@[q.selected as int].id,
        copy_target(a, e) matches Some(t) ==> (c2.query matches Some(Query::Copy(x)) && x@ == t),
        copy_target(a, e) is None ==> c2.query is None,
{
    assert(a1.pending is CopyFrom);
}

/// On the detail screen, a copy action asks to copy exactly the field it
/// names of the entry shown, and nothing when the entry lacks it.
pub proof fn lemma_detail_copies_named_field(a0: App, d: EntryDetailState, a: Action, a1: App, c1: Command)
    requires
        a0.state == AppState::Unlocked(UnlockedView::EntryDetail(d)),
        a == Action::CopyPassword || a == Action::CopyUsername || a == Action::CopyUrl,
        app_step(a0, a, a1, c1),
    ensures
        copy_target(a, d.entry) matches Some(t) ==> (c1.query matches Some(Query::Copy(x)) && x@ == t),
        copy_target(a, d.entry) is None ==> c1.query is None,
{
}

/// The stored duplicate of entry `e`: every field of `e` but the identifier,
/// which is the fresh one, the title, which gains " (copy)", and both
/// times, which are the stamp's.
pub open spec fn is_copy_of(d: Entry, e: Entry, now: i64, fresh: EntryId) -> bool {
    &&& d.id == fresh
    &&& d.title@ == e.title@ + " (copy)"@
    &&& d.password@ == e.password@
    &&& d.username.deep_view() == e.username.deep_view()
    &&& d.url.deep_view() == e.url.deep_view()
    &&& d.notes.deep_view() == e.notes.deep_view()
    &&& d.tags.deep_view() == e.tags.deep_view()
    &&& d.created_at == now && d.updated_at == now
}

/// Duplicating from the list loads the selected entry, asks for a stamp,
/// and stores a copy under the stamp's fresh identifier; so when that
/// identifier is new the copy never overwrites the entry it copies.
pub proof fn lemma_list_duplicate_gets_fresh_id(
    a0: App, s: EntryListState, a1: App, c1: Command, e: Entry, a2: App, c2: Command,
    now: i64, fresh: EntryId, a3: App, c3: Command,
)
    requires
        a0.state == AppState::Unlocked(UnlockedView::EntryList(s)),
        s.selected < s.entries@.len(),
        app_step(a0, Action::DuplicateEntry, a1, c1),
        resume_step(a1, Reply::Loaded(Ok(e)), a2, c2),
        resume_step(a2, Reply::Stamp(now, fresh), a3, c3),
    ensures
        c1.query matches Some(Query::GetEntry(id)) && id == s.entries@[s.selected as int].id,
        c2.query matches Some(Query::Stamp),
        c3.query matches Some(Query::CreateEntry(d)),
        is_copy_of(c3.query->Some_0->CreateEntry_0, e, now, fresh),
        fresh != e.id ==> c3.query->Some_0->CreateEntry_0.id != e.id,
{
    assert(a1.pending is DuplicateLoad);
    assert(a2.pending is DuplicateStamp);
}

/// Duplicating from the detail screen stores a copy of the entry shown
/// under the stamp's fresh identifier.
pub proof fn lemma_detail_duplicate_gets_fresh_id(
    a0: App, d: EntryDetailState, a1: App, c1: Command, now: i64, fresh: EntryId, a2: App, c2: Command,
)
    requires
        a0.state == AppState::Unlocked(UnlockedView::EntryDetail(d)),
        app_step(a0, Action::DuplicateEntry, a1, c1),
        resume_step(a1, Reply::Stamp(now, fresh), a2, c2),
    ensures
        c1.query matches Some(Query::Stamp),
        c2.query matches Some(Query::CreateEntry(x)),
        c2.query->Some_0->CreateEntry_0@.id == fresh,
        c2.query->Some_0->CreateEntry_0@.title == d.entry@.title + " (copy)"@,
        c2.query->Some_0->CreateEntry_0@.password == d.entry@.password,
        c2.query->Some_0->CreateEntry_0@.username == d.entry@.username,
        c2.query->Some_0->CreateEntry_0@.url == d.entry@.url,
        fresh != d.entry.id ==> c2.query->Some_0->CreateEntry_0.id != d.entry.id,
{
    assert(a1.pending is DuplicateStamp);
}

/// Locking from any unlocked screen clears the clipboard, locks the
/// service and shows an empty, hidden unlock screen.
pub proof fn lemma_lock_clears(a0: App, v: UnlockedView, a1: App, c1: Command)
    requires
        a0.state == AppState::Unlocked(v),
        app_step(a0, Action::Lock, a1, c1),
    ensures
        c1.effects@ == seq![Effect::ClearClipboard, Effect::Lock],
        c1.query is None,
        a1.state matches AppState::Locked(l),
        a1.state->Locked_0.input@.len() == 0,
        a1.state->Locked_0.hidden,
        a1.confirm_action is None,
{
}

/// The interface waits for a reply exactly when it has asked a query.
pub open spec fn waits_iff_asks(a: App, c: Command) -> bool {
    (c.query is Some) == !(a.pending is Idle)
}

/// Every action taken while idle leaves the interface waiting exactly when
/// the command it returns carries a query, so the loop that answers
/// queries and the interface never disagree about whose turn it is.
#[verifier::rlimit(100)]
pub proof fn lemma_action_waits_iff_asks(a0: App, act: Action, a1: App, c: Command)
    requires
        a0.pending is Idle,
        app_step(a0, act, a1, c),
    ensures
        waits_iff_asks(a1, c),
{
}

/// Every reply handed back leaves the interface waiting exactly when the
/// command it returns carries a follow-up query.
#[verifier::rlimit(100)]
pub proof fn lemma_reply_waits_iff_asks(a0: App, rep: Reply, a1: App, c: Command)
    requires
        resume_step(a0, rep, a1, c),
    ensures
        waits_iff_asks(a1, c),
{
}

} // verus!
