//! The screens of the terminal interface and the requests it makes of the
//! vault service and the desktop.
use vstd::prelude::*;
use crate::config::KryptonConfig;
use crate::error::{Result, VaultError};
use crate::ext::GeneratorConfig;
use crate::models::{Entry, EntryId, EntrySummary};
use crate::settings::SettingsState;

verus! {

/// A pending destructive action that needs a second confirmation.
#[derive(Debug, Clone, Copy, PartialEq, Eq, Structural)]
pub enum ConfirmAction {
    DeleteEntry(EntryId),
}

/// The kind of a toast message.
#[derive(Debug, Clone, Copy, PartialEq, Eq, Structural)]
pub enum ToastKind {
    Info,
    Success,
    Error,
}

/// A short message shown at the bottom of the screen.
#[derive(Debug)]
pub struct Toast {
    pub message: String,
    pub kind: ToastKind,
}

/// The vault-reset flow on the unlock screen.
#[derive(Debug)]
pub enum ResetStep {
    /// Typing the confirmation sentence.
    TypingConfirm { buffer: String },
    /// Counting down before the vault file is removed.
    Waiting { seconds: u64 },
}

/// Master-password input on the unlock screen.
pub struct LockedState {
    pub input: String,
    pub hidden: bool,
    pub error: Option<String>,
    pub loading: bool,
    pub reset_step: Option<ResetStep>,
}

impl LockedState {
    /// An empty, hidden password field with no error.
    pub fn new() -> (r: Self)
        ensures
            r.input@.len() == 0,
            r.hidden,
            r.error is None,
            !r.loading,
            r.reset_step is None,
    {
        LockedState { input: String::new(), hidden: true, error: None, loading: false, reset_step: None }
    }
}

/// The two steps of choosing a master password.
#[derive(Debug, Clone, Copy, PartialEq, Eq, Structural)]
pub enum FirstRunStep {
    EnterPassword,
    ConfirmPassword,
}

/// Master-password creation during first run.
pub struct FirstRunState {
    pub step: FirstRunStep,
    pub password: String,
    pub confirm: String,
    pub error: Option<String>,
}

impl FirstRunState {
    /// The first step with both fields empty.
    pub fn new() -> (r: Self)
        ensures
            r.step == FirstRunStep::EnterPassword,
            r.password@.len() == 0,
            r.confirm@.len() == 0,
            r.error is None,
    {
        FirstRunState {
            step: FirstRunStep::EnterPassword,
            password: String::new(),
            confirm: String::new(),
            error: None,
        }
    }
}

/// A rectangle of terminal cells.
#[derive(Debug, Clone, Copy, PartialEq, Eq, Structural)]
pub struct Rect {
    pub x: u16,
    pub y: u16,
    pub width: u16,
    pub height: u16,
}

impl Rect {
    /// The empty rectangle at the origin.
    pub fn zero() -> (r: Rect)
        ensures
            r == (Rect { x: 0, y: 0, width: 0, height: 0 }),
    {
        Rect { x: 0, y: 0, width: 0, height: 0 }
    }

    /// Whether the rectangle lies within the 16-bit coordinate range.
    pub open spec fn wf(self) -> bool {
        self.y + self.height <= u16::MAX && self.x + self.width <= u16::MAX
    }
}

/// The index of the table row at terminal row `row`, when the click falls
/// within the body rectangle `r`.
pub open spec fn row_hit(r: Rect, row: u16) -> Option<int> {
    if r.height > 0 && row >= r.y && row < r.y + r.height {
        Some(row - r.y)
    } else {
        None
    }
}

/// The entry list, with the selected entry's details for the preview panel.
pub struct EntryListState {
    pub entries: Vec<EntrySummary>,
    pub selected: usize,
    /// Where the table body was last drawn, for mouse hit-testing.
    pub table_rect: Rect,
    /// Full entry data for the currently selected item.
    pub preview_entry: Option<Entry>,
}

/// One entry shown in full.
pub struct EntryDetailState {
    pub entry: Entry,
    pub show_password: bool,
}

/// The entry editor.
pub struct EntryEditState {
    pub id: Option<EntryId>,
    pub title: String,
    pub username: String,
    pub password: String,
    pub url: String,
    pub notes: String,
    pub tags: String,
    pub active_field: usize,
    pub dirty: bool,
    /// The original password when editing an existing entry; kept when the
    /// password field is left empty.
    pub existing_password: String,
    /// The original creation time of an existing entry.
    pub initial_created_at: i64,
}

impl EntryEditState {
    /// An empty editor for a new entry.
    pub fn new() -> (r: Self)
        ensures
            r.id is None,
            r.title@.len() == 0,
            r.username@.len() == 0,
            r.password@.len() == 0,
            r.url@.len() == 0,
            r.notes@.len() == 0,
            r.tags@.len() == 0,
            r.active_field == 0,
            !r.dirty,
            r.existing_password@.len() == 0,
            r.initial_created_at == 0,
    {
        EntryEditState {
            id: None,
            title: String::new(),
            username: String::new(),
            password: String::new(),
            url: String::new(),
            notes: String::new(),
            tags: String::new(),
            active_field: 0,
            dirty: false,
            existing_password: String::new(),
            initial_created_at: 0,
        }
    }
}

/// The search screen.
#[derive(Debug)]
pub struct SearchState {
    pub query: String,
    pub results: Vec<EntrySummary>,
    pub selected: usize,
    /// Where the result list was last drawn, for mouse hit-testing.
    pub result_rect: Rect,
}

impl SearchState {
    /// An empty search.
    pub fn new() -> (r: Self)
        ensures
            r.query@.len() == 0,
            r.results@.len() == 0,
            r.selected == 0,
            r.result_rect == (Rect { x: 0, y: 0, width: 0, height: 0 }),
    {
        SearchState { query: String::new(), results: Vec::new(), selected: 0, result_rect: Rect::zero() }
    }
}

/// The screens of an unlocked vault.
pub enum UnlockedView {
    EntryList(EntryListState),
    EntryDetail(EntryDetailState),
    EntryEdit(EntryEditState),
    Search(SearchState),
    Settings(SettingsState),
    /// The help screen, remembering the screen to return to.
    Help(Box<UnlockedView>),
}

/// The top-level state of the interface.
pub enum AppState {
    FirstRun(FirstRunState),
    Locked(LockedState),
    Unlocked(UnlockedView),
}

/// Something the interface asks the outside world to do, with no answer
/// expected.
#[derive(Debug, Clone, Copy, PartialEq, Eq, Structural)]
pub enum Effect {
    /// Lock the vault (drop the key).
    Lock,
    /// Clear the clipboard and cancel any scheduled clear.
    ClearClipboard,
    /// Tell the service whether to hide metadata in listings.
    SetHideMetadata(bool),
    /// Delete the vault file.
    RemoveVaultFile,
}

/// A request whose answer the interface waits for.
pub enum Query {
    CreateVault(String),
    Unlock(String),
    ListEntries,
    GetEntry(EntryId),
    CreateEntry(Entry),
    UpdateEntry(Entry),
    DeleteEntry(EntryId),
    Search(String),
    /// Copy text to the clipboard (and schedule its clearing).
    Copy(String),
    SaveConfig(KryptonConfig),
    /// Generate a password with the first registered generator.
    Generate(GeneratorConfig),
    /// The current time and a fresh entry identifier.
    Stamp,
    /// Export all entries to a file.
    Export,
    /// Read entries from the import file.
    Import,
}

/// How an export ended.
#[derive(Debug)]
pub enum ExportOutcome {
    /// `count` entries were written to the file `name`.
    Written { count: usize, name: String },
    /// The export file could not be written.
    WriteFailed(String),
    /// The service could not produce the export.
    Failed(VaultError),
}

/// How reading the import file ended.
pub enum ImportOutcome {
    /// The entries read from the file.
    Read(Vec<Entry>),
    /// The file could not be read.
    Unreadable(String),
    /// The service could not parse the file.
    Failed(VaultError),
}

/// The answer to a [`Query`].
pub enum Reply {
    /// To CreateVault, Unlock, CreateEntry, UpdateEntry, DeleteEntry.
    Done(Result<()>),
    /// To ListEntries and Search.
    Entries(Result<Vec<EntrySummary>>),
    /// To GetEntry.
    Loaded(Result<Entry>),
    /// To Copy: whether the clipboard took the text.
    Copied(bool),
    /// To SaveConfig.
    Saved(std::result::Result<(), String>),
    /// To Generate: `None` when no generator is registered.
    Generated(Option<Result<String>>),
    /// To Stamp: the current time and a fresh identifier.
    Stamp(i64, EntryId),
    /// To Export.
    Exported(ExportOutcome),
    /// To Import.
    Imported(ImportOutcome),
}

/// What one step of the interface asks for: effects to perform in order,
/// then at most one query whose reply is to be handed to `App::resume`.
pub struct Command {
    pub effects: Vec<Effect>,
    pub query: Option<Query>,
}

} // verus!
