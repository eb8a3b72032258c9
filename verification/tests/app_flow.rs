use krypton::actions::Action;
use krypton::app::App;
use krypton::app_state::{
    AppState, Effect, EntryListState, FirstRunState, FirstRunStep, LockedState, Query, Rect, Reply, ResetStep,
    ToastKind, UnlockedView,
};
use krypton::config::KryptonConfig;
use krypton::error::VaultError;
use krypton::models::{Entry, EntryId, EntrySummary};

fn summary(n: u128, title: &str) -> EntrySummary {
    EntrySummary {
        id: EntryId(n),
        title: title.to_string(),
        username: None,
        url: None,
        tags: vec![],
        updated_at: 0,
    }
}

fn entry(n: u128, title: &str) -> Entry {
    let mut e = Entry::new(title.to_string(), "pw".to_string());
    e.id = EntryId(n);
    e
}

fn list_app(n: usize) -> App {
    let entries: Vec<EntrySummary> = (0..n).map(|i| summary(i as u128 + 1, "t")).collect();
    App::new(
        KryptonConfig::default(),
        AppState::Unlocked(UnlockedView::EntryList(EntryListState {
            entries,
            selected: 0,
            table_rect: Rect::zero(),
            preview_entry: None,
        })),
    )
}

fn typed(app: &mut App, s: &str) {
    for c in s.chars() {
        let cmd = app.handle_action(Action::CharInput(c));
        assert!(cmd.effects.is_empty() && cmd.query.is_none());
    }
}

#[test]
fn first_run_creates_vault_and_lists() {
    let mut app = App::new(KryptonConfig::default(), AppState::FirstRun(FirstRunState::new()));
    typed(&mut app, "pw");
    app.handle_action(Action::Submit);
    match &app.state {
        AppState::FirstRun(s) => assert_eq!(s.step, FirstRunStep::ConfirmPassword),
        _ => panic!("still on first run"),
    }
    typed(&mut app, "pw");
    let cmd = app.handle_action(Action::Submit);
    assert!(matches!(cmd.query, Some(Query::CreateVault(ref p)) if p == "pw"));
    assert!(!app.is_idle());
    let cmd = app.resume(Reply::Done(Ok(())));
    assert!(matches!(cmd.query, Some(Query::ListEntries)));
    let cmd = app.resume(Reply::Entries(Ok(vec![])));
    assert!(cmd.query.is_none());
    assert!(app.is_idle());
    match &app.state {
        AppState::Unlocked(UnlockedView::EntryList(l)) => assert!(l.entries.is_empty()),
        _ => panic!("list expected"),
    }
}

#[test]
fn first_run_rejects_empty_and_mismatch() {
    let mut app = App::new(KryptonConfig::default(), AppState::FirstRun(FirstRunState::new()));
    app.handle_action(Action::Submit);
    match &app.state {
        AppState::FirstRun(s) => {
            assert_eq!(s.step, FirstRunStep::EnterPassword);
            assert_eq!(s.error.as_deref(), Some("Password cannot be empty"));
        }
        _ => panic!(),
    }
    typed(&mut app, "ab");
    app.handle_action(Action::Submit);
    typed(&mut app, "ac");
    let cmd = app.handle_action(Action::Submit);
    assert!(cmd.query.is_none());
    match &app.state {
        AppState::FirstRun(s) => {
            assert_eq!(s.error.as_deref(), Some("Passwords do not match"));
            assert_eq!(s.confirm, "");
            assert_eq!(s.password, "ab");
        }
        _ => panic!(),
    }
}

#[test]
fn wrong_password_clears_input() {
    let mut app = App::new(KryptonConfig::default(), AppState::Locked(LockedState::new()));
    typed(&mut app, "bad");
    let cmd = app.handle_action(Action::Submit);
    assert!(matches!(cmd.query, Some(Query::Unlock(ref p)) if p == "bad"));
    let cmd = app.resume(Reply::Done(Err(VaultError::WrongPassword)));
    assert!(cmd.query.is_none());
    match &app.state {
        AppState::Locked(s) => {
            assert_eq!(s.input, "");
            assert_eq!(s.error.as_deref(), Some("Wrong master password"));
        }
        _ => panic!(),
    }
}

#[test]
fn unlock_loads_preview_of_first_entry() {
    let mut app = App::new(KryptonConfig::default(), AppState::Locked(LockedState::new()));
    typed(&mut app, "ok");
    app.handle_action(Action::Submit);
    app.resume(Reply::Done(Ok(())));
    let cmd = app.resume(Reply::Entries(Ok(vec![summary(7, "a"), summary(8, "b")])));
    assert!(matches!(cmd.query, Some(Query::GetEntry(EntryId(7)))));
    app.resume(Reply::Loaded(Ok(entry(7, "a"))));
    match &app.state {
        AppState::Unlocked(UnlockedView::EntryList(l)) => {
            assert_eq!(l.entries.len(), 2);
            assert_eq!(l.selected, 0);
            assert_eq!(l.preview_entry.as_ref().map(|e| e.id), Some(EntryId(7)));
        }
        _ => panic!(),
    }
}

#[test]
fn list_navigation_clamps() {
    let mut app = list_app(3);
    let cmd = app.handle_action(Action::Up);
    assert!(matches!(cmd.query, Some(Query::GetEntry(EntryId(1)))));
    app.resume(Reply::Loaded(Ok(entry(1, "t"))));
    app.handle_action(Action::Down);
    app.resume(Reply::Loaded(Ok(entry(2, "t"))));
    app.handle_action(Action::PageDown);
    app.resume(Reply::Loaded(Ok(entry(3, "t"))));
    let cmd = app.handle_action(Action::Down);
    assert!(matches!(cmd.query, Some(Query::GetEntry(EntryId(3)))));
    app.resume(Reply::Loaded(Ok(entry(3, "t"))));
    match &app.state {
        AppState::Unlocked(UnlockedView::EntryList(l)) => assert_eq!(l.selected, 2),
        _ => panic!(),
    }
    app.handle_action(Action::PageUp);
    app.resume(Reply::Loaded(Err(VaultError::Locked)));
    match &app.state {
        AppState::Unlocked(UnlockedView::EntryList(l)) => {
            assert_eq!(l.selected, 0);
            assert!(l.preview_entry.is_none());
        }
        _ => panic!(),
    }
}

#[test]
fn click_selects_row() {
    let mut app = list_app(3);
    if let AppState::Unlocked(UnlockedView::EntryList(l)) = &mut app.state {
        l.table_rect = Rect { x: 0, y: 5, width: 40, height: 10 };
    }
    let cmd = app.handle_action(Action::Click(3, 7));
    assert!(matches!(cmd.query, Some(Query::GetEntry(EntryId(3)))));
    app.resume(Reply::Loaded(Ok(entry(3, "t"))));
    let cmd = app.handle_action(Action::Click(3, 9));
    assert!(cmd.query.is_none());
}

#[test]
fn delete_needs_confirmation() {
    let mut app = list_app(2);
    app.config.confirm_before_delete = true;
    let cmd = app.handle_action(Action::DeleteEntry);
    assert!(cmd.query.is_none());
    let t = app.toast.as_ref().unwrap();
    assert_eq!(t.message, "Press d again to confirm delete, Esc to cancel");
    assert_eq!(t.kind, ToastKind::Info);
    let cmd = app.handle_action(Action::DeleteEntry);
    assert!(matches!(cmd.query, Some(Query::DeleteEntry(EntryId(1)))));
    assert!(app.confirm_action.is_none());
    let cmd = app.resume(Reply::Done(Ok(())));
    assert_eq!(app.toast.as_ref().unwrap().message, "Entry deleted");
    assert!(matches!(cmd.query, Some(Query::ListEntries)));
}

#[test]
fn other_key_cancels_delete_confirmation() {
    let mut app = list_app(2);
    app.config.confirm_before_delete = true;
    app.handle_action(Action::DeleteEntry);
    assert!(app.confirm_action.is_some());
    app.handle_action(Action::Back);
    assert!(app.confirm_action.is_none());
    let cmd = app.handle_action(Action::DeleteEntry);
    assert!(cmd.query.is_none());
}

#[test]
fn delete_without_confirmation_by_default() {
    let mut app = list_app(1);
    assert!(!app.config.confirm_before_delete);
    let cmd = app.handle_action(Action::DeleteEntry);
    assert!(matches!(cmd.query, Some(Query::DeleteEntry(EntryId(1)))));
}

#[test]
fn new_entry_save_creates_with_stamp() {
    let mut app = list_app(0);
    app.handle_action(Action::NewEntry);
    let cmd = app.handle_action(Action::SaveEntry);
    assert!(cmd.query.is_none());
    assert_eq!(app.toast.as_ref().unwrap().message, "Title is required");
    typed(&mut app, "Mail");
    app.handle_action(Action::NextField);
    typed(&mut app, "me");
    app.handle_action(Action::NextField);
    typed(&mut app, "secret");
    let cmd = app.handle_action(Action::SaveEntry);
    assert!(matches!(cmd.query, Some(Query::Stamp)));
    let cmd = app.resume(Reply::Stamp(1000, EntryId(42)));
    match cmd.query {
        Some(Query::CreateEntry(e)) => {
            assert_eq!(e.id, EntryId(42));
            assert_eq!(e.title, "Mail");
            assert_eq!(e.username.as_deref(), Some("me"));
            assert_eq!(e.password, "secret");
            assert!(e.url.is_none() && e.notes.is_none());
            assert_eq!(e.created_at, 1000);
            assert_eq!(e.updated_at, 1000);
        }
        _ => panic!("create expected"),
    }
    let cmd = app.resume(Reply::Done(Ok(())));
    assert_eq!(app.toast.as_ref().unwrap().message, "Entry saved");
    assert!(matches!(cmd.query, Some(Query::ListEntries)));
}

#[test]
fn editing_existing_keeps_password_and_creation() {
    let mut app = App::new(
        KryptonConfig::default(),
        AppState::Unlocked(UnlockedView::EntryList(EntryListState {
            entries: vec![summary(5, "old")],
            selected: 0,
            table_rect: Rect::zero(),
            preview_entry: None,
        })),
    );
    let cmd = app.handle_action(Action::EditEntry);
    assert!(matches!(cmd.query, Some(Query::GetEntry(EntryId(5)))));
    let mut e = entry(5, "old");
    e.created_at = 10;
    e.password = "keep".to_string();
    app.resume(Reply::Loaded(Ok(e)));
    if let AppState::Unlocked(UnlockedView::EntryEdit(ed)) = &mut app.state {
        assert_eq!(ed.title, "old");
        ed.active_field = 2;
    } else {
        panic!("editor expected");
    }
    for _ in 0..4 {
        app.handle_action(Action::Backspace);
    }
    app.handle_action(Action::SaveEntry);
    let cmd = app.resume(Reply::Stamp(99, EntryId(1)));
    match cmd.query {
        Some(Query::UpdateEntry(e)) => {
            assert_eq!(e.id, EntryId(5));
            assert_eq!(e.password, "keep");
            assert_eq!(e.created_at, 10);
            assert_eq!(e.updated_at, 99);
        }
        _ => panic!("update expected"),
    }
}

#[test]
fn search_backspace_to_empty_clears_results() {
    let mut app = list_app(1);
    app.handle_action(Action::StartSearch);
    let cmd = app.handle_action(Action::CharInput('g'));
    assert!(matches!(cmd.query, Some(Query::Search(ref q)) if q == "g"));
    app.resume(Reply::Entries(Ok(vec![summary(1, "gmail")])));
    let cmd = app.handle_action(Action::Backspace);
    assert!(cmd.query.is_none());
    match &app.state {
        AppState::Unlocked(UnlockedView::Search(s)) => {
            assert!(s.results.is_empty());
            assert_eq!(s.query, "");
        }
        _ => panic!(),
    }
    let cmd = app.handle_action(Action::Back);
    assert!(matches!(cmd.query, Some(Query::ListEntries)));
}

#[test]
fn settings_save_applies_config() {
    let mut app = list_app(0);
    app.handle_action(Action::OpenSettings);
    app.handle_action(Action::ToggleSetting);
    let cmd = app.handle_action(Action::SaveEntry);
    match &cmd.query {
        Some(Query::SaveConfig(c)) => assert!(c.hide_metadata),
        _ => panic!(),
    }
    assert!(!app.config.hide_metadata);
    let cmd = app.resume(Reply::Saved(Ok(())));
    assert!(app.config.hide_metadata);
    assert_eq!(cmd.effects, vec![Effect::SetHideMetadata(true)]);
    assert!(matches!(cmd.query, Some(Query::ListEntries)));
    assert_eq!(app.toast.as_ref().unwrap().message, "Settings saved");
}

#[test]
fn settings_save_failure_is_reported() {
    let mut app = list_app(0);
    app.handle_action(Action::OpenSettings);
    app.handle_action(Action::SaveEntry);
    app.resume(Reply::Saved(Err("disk full".to_string())));
    let t = app.toast.as_ref().unwrap();
    assert_eq!(t.message, "Save failed: disk full");
    assert_eq!(t.kind, ToastKind::Error);
}

#[test]
fn help_returns_to_previous_screen() {
    let mut app = list_app(2);
    app.handle_action(Action::Help);
    assert!(matches!(app.state, AppState::Unlocked(UnlockedView::Help(_))));
    app.handle_action(Action::Down);
    assert!(matches!(app.state, AppState::Unlocked(UnlockedView::Help(_))));
    app.handle_action(Action::Back);
    match &app.state {
        AppState::Unlocked(UnlockedView::EntryList(l)) => assert_eq!(l.entries.len(), 2),
        _ => panic!(),
    }
}

#[test]
fn quit_and_lock_clear_clipboard() {
    let mut app = list_app(1);
    let cmd = app.handle_action(Action::Lock);
    assert_eq!(cmd.effects, vec![Effect::ClearClipboard, Effect::Lock]);
    assert!(matches!(app.state, AppState::Locked(_)));
    let cmd = app.handle_action(Action::Quit);
    assert_eq!(cmd.effects, vec![Effect::ClearClipboard, Effect::Lock]);
    assert!(app.should_quit);
}

#[test]
fn toast_expires_after_sixty_ticks() {
    let mut app = list_app(0);
    app.show_toast("hi".to_string(), ToastKind::Info);
    for _ in 0..59 {
        app.handle_action(Action::Tick);
    }
    assert!(app.toast.is_some());
    app.handle_action(Action::Tick);
    assert!(app.toast.is_none());
}

#[test]
fn copy_password_from_detail() {
    let mut app = list_app(1);
    let cmd = app.handle_action(Action::Select);
    assert!(matches!(cmd.query, Some(Query::GetEntry(EntryId(1)))));
    app.resume(Reply::Loaded(Ok(entry(1, "t"))));
    assert!(matches!(app.state, AppState::Unlocked(UnlockedView::EntryDetail(_))));
    let cmd = app.handle_action(Action::CopyPassword);
    assert!(matches!(cmd.query, Some(Query::Copy(ref t)) if t == "pw"));
    app.resume(Reply::Copied(true));
    assert_eq!(app.toast.as_ref().unwrap().message, "Password copied \u{2014} clears in 30s");
}

#[test]
fn waiting_exactly_when_a_query_is_asked() {
    let mut app = list_app(2);
    let cmd = app.handle_action(Action::Down);
    assert_eq!(cmd.query.is_some(), !app.is_idle());
    let cmd = app.resume(Reply::Loaded(Ok(entry(2, "t"))));
    assert_eq!(cmd.query.is_some(), !app.is_idle());
    let cmd = app.handle_action(Action::NewEntry);
    assert_eq!(cmd.query.is_some(), !app.is_idle());
    typed(&mut app, "x");
    let cmd = app.handle_action(Action::SaveEntry);
    assert!(cmd.query.is_some() && !app.is_idle());
    let cmd = app.resume(Reply::Stamp(5, EntryId(9)));
    assert!(cmd.query.is_some() && !app.is_idle());
    let cmd = app.resume(Reply::Done(Ok(())));
    assert!(cmd.query.is_some() && !app.is_idle());
    let cmd = app.resume(Reply::Entries(Ok(vec![])));
    assert!(cmd.query.is_none() && app.is_idle());
}

#[test]
fn help_returns_from_every_screen() {
    let mut app = list_app(1);
    app.handle_action(Action::Select);
    app.resume(Reply::Loaded(Ok(entry(1, "t"))));
    app.handle_action(Action::Help);
    app.handle_action(Action::Back);
    assert!(matches!(app.state, AppState::Unlocked(UnlockedView::EntryDetail(_))));

    let mut app = list_app(1);
    app.handle_action(Action::OpenSettings);
    app.handle_action(Action::Help);
    app.handle_action(Action::Back);
    assert!(matches!(app.state, AppState::Unlocked(UnlockedView::Settings(_))));

    let mut app = list_app(1);
    app.handle_action(Action::StartSearch);
    app.handle_action(Action::Help);
    app.handle_action(Action::Back);
    assert!(matches!(app.state, AppState::Unlocked(UnlockedView::Search(_))));

    let mut app = list_app(1);
    app.handle_action(Action::NewEntry);
    typed(&mut app, "ab");
    app.handle_action(Action::Help);
    app.handle_action(Action::Back);
    match &app.state {
        AppState::Unlocked(UnlockedView::EntryEdit(e)) => assert_eq!(e.title, "ab"),
        _ => panic!(),
    }
}

#[test]
fn lock_from_any_unlocked_screen() {
    let mut app = list_app(1);
    app.handle_action(Action::Select);
    app.resume(Reply::Loaded(Ok(entry(1, "t"))));
    let cmd = app.handle_action(Action::Lock);
    assert_eq!(cmd.effects, vec![Effect::ClearClipboard, Effect::Lock]);
    match &app.state {
        AppState::Locked(l) => assert!(l.input.is_empty() && l.hidden),
        _ => panic!(),
    }
    let mut app = list_app(0);
    app.handle_action(Action::OpenSettings);
    app.handle_action(Action::Help);
    let cmd = app.handle_action(Action::Lock);
    assert_eq!(cmd.effects, vec![Effect::ClearClipboard, Effect::Lock]);
    assert!(matches!(app.state, AppState::Locked(_)));
    let mut app = App::new(KryptonConfig::default(), AppState::Locked(LockedState::new()));
    let cmd = app.handle_action(Action::Lock);
    assert!(cmd.effects.is_empty());
}

#[test]
fn reset_sentence_then_countdown_removes_vault() {
    let mut app = App::new(KryptonConfig::default(), AppState::Locked(LockedState::new()));
    typed(&mut app, "pw");
    app.handle_action(Action::StartReset);
    let sentence = "I accept the risks";
    for (i, c) in sentence.chars().enumerate() {
        let cmd = app.handle_action(Action::CharInput(c));
        assert!(cmd.effects.is_empty() && cmd.query.is_none());
        match &app.state {
            AppState::Locked(l) => {
                assert_eq!(l.input, "pw");
                if i + 1 < sentence.len() {
                    assert!(matches!(l.reset_step, Some(ResetStep::TypingConfirm { .. })));
                } else {
                    assert!(matches!(l.reset_step, Some(ResetStep::Waiting { seconds: 10 })));
                }
            }
            _ => panic!(),
        }
    }
    for left in (1..10u64).rev() {
        let cmd = app.handle_action(Action::Tick);
        assert!(cmd.effects.is_empty());
        match &app.state {
            AppState::Locked(l) => assert!(matches!(l.reset_step, Some(ResetStep::Waiting { seconds }) if seconds == left)),
            _ => panic!(),
        }
    }
    let cmd = app.handle_action(Action::Tick);
    assert_eq!(cmd.effects, vec![Effect::RemoveVaultFile]);
    match &app.state {
        AppState::FirstRun(f) => assert!(f.password.is_empty() && f.error.is_none()),
        _ => panic!(),
    }
}

#[test]
fn back_cancels_reset() {
    let mut app = App::new(KryptonConfig::default(), AppState::Locked(LockedState::new()));
    app.handle_action(Action::StartReset);
    typed(&mut app, "I acc");
    app.handle_action(Action::Back);
    match &app.state {
        AppState::Locked(l) => assert!(l.reset_step.is_none()),
        _ => panic!(),
    }
}

#[test]
fn editor_fields_stay_in_range() {
    let mut app = list_app(0);
    app.handle_action(Action::NewEntry);
    for _ in 0..7 {
        app.handle_action(Action::NextField);
    }
    match &app.state {
        AppState::Unlocked(UnlockedView::EntryEdit(e)) => assert_eq!(e.active_field, 4),
        _ => panic!(),
    }
    for _ in 0..7 {
        app.handle_action(Action::PrevField);
    }
    match &app.state {
        AppState::Unlocked(UnlockedView::EntryEdit(e)) => assert_eq!(e.active_field, 0),
        _ => panic!(),
    }
}
