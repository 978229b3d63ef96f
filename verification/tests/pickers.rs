use accountir::date::Date;
use accountir::events;
use accountir::events::Event;
use accountir::input::KeyCode;
use accountir::tui::theme::Theme;
use accountir::tui::views::business_picker;
use accountir::tui::views::business_picker::{
    Business, BusinessPickerView, PickerAction, PickerMode, PickerRequest,
};
use accountir::tui::views::event_log::{EventLogView, StoredEvent, Timestamp};
use accountir::tui::views::startup;
use accountir::tui::views::startup::{StartupAction, StartupView};

fn business(id: &str) -> Business {
    Business {
        id: id.to_string(),
        name: format!("Shop {}", id),
        display_name: None,
        db_path: format!("/tmp/{}.db", id),
        original_path: None,
    }
}

#[test]
fn a_business_is_opened() {
    let (mut view, request) =
        BusinessPickerView::new(vec![business("a"), business("b")], Vec::new(), true, Vec::new());
    assert!(matches!(request, PickerRequest::Nothing));
    view.handle_key(KeyCode::Down);
    view.handle_key(KeyCode::Enter);
    assert!(view.has_action());
    match &view.action {
        PickerAction::OpenBusiness(b) => assert_eq!(b.id, "b"),
        _ => panic!("expected the business"),
    }
}

#[test]
fn moving_files_needs_confirmation() {
    let (mut view, _) =
        BusinessPickerView::new(vec![business("a")], Vec::new(), true, Vec::new());
    view.mode = PickerMode::ConfirmArchive { biz_id: "a".to_string() };
    assert!(matches!(view.handle_key(KeyCode::Char('n')), PickerRequest::Nothing));
    view.mode = PickerMode::ConfirmArchive { biz_id: "a".to_string() };
    match view.handle_key(KeyCode::Char('y')) {
        PickerRequest::Archive(id) => assert_eq!(id, "a"),
        _ => panic!("expected the archive"),
    }
}

#[test]
fn new_files_must_be_free() {
    let (mut view, _) =
        BusinessPickerView::new(Vec::new(), Vec::new(), true, Vec::new());
    view.mode = PickerMode::AddNewInput;
    view.path_checked("/tmp/new.db".to_string(), true);
    assert!(view.error_message.is_some());
    view.path_checked("/tmp/new.db".to_string(), false);
    match &view.action {
        PickerAction::AddNew(path) => assert_eq!(path, "/tmp/new.db"),
        _ => panic!("expected the new file"),
    }
}

#[test]
fn times_and_paths_are_short() {
    let home = Some("/home/me".to_string());
    assert_eq!(business_picker::abbrev_path("/home/me/a.db", &home), "~/a.db");
    assert_eq!(business_picker::abbrev_path("/b.db", &home), "/b.db");
    assert_ne!(business_picker::relative_time(30), business_picker::relative_time(86400 * 3));
    assert!(business_picker::suggest_new_db_name().ends_with(".db"));
    assert_eq!(business("a").label(), "Shop a");
}

#[test]
fn new_databases_are_new() {
    let mut view = StartupView::new(Vec::new());
    view.input_mode = startup::InputMode::NewPath;
    view.input_buffer = "/tmp/new.db".to_string();
    let asked = view.handle_key(KeyCode::Enter);
    assert_eq!(asked.as_deref(), Some("/tmp/new.db"));
    view.path_checked("/tmp/new.db".to_string(), true);
    assert!(view.error_message.is_some());
    assert!(!view.has_action());
    view.path_checked("/tmp/new.db".to_string(), false);
    match &view.action {
        StartupAction::NewDatabase(path) => assert_eq!(path, "/tmp/new.db"),
        _ => panic!("expected the new database"),
    }
    assert!(view.get_menu_items().len() >= 2);
    assert!(!view.draw(&Theme::dark()).menu.items.is_empty());
}

#[test]
fn recent_databases_are_listed_once() {
    let found = startup::find_recent_databases(
        vec!["/a.db".to_string()],
        &vec!["/a.db".to_string(), "/b.db".to_string()],
    );
    let mut unique = found.clone();
    unique.sort();
    unique.dedup();
    assert_eq!(unique.len(), found.len());
    assert_eq!(found[0], "/a.db");
}

fn paths(names: &[&str]) -> Vec<String> {
    names.iter().map(|n| n.to_string()).collect()
}

#[test]
fn only_database_files_are_offered() {
    let listed = paths(&[
        "./notes.txt", "./b.db", "./.db", "./db", "./x.db.bak", "./.x.db", "./a.db", "./b.DB",
        "./src", ".db", "c.db", "./b.db",
    ]);
    assert_eq!(
        startup::find_recent_databases(paths(&["accountir.db"]), &listed),
        ["accountir.db", "./b.db", "./.x.db", "./a.db", "c.db"]
    );
    assert!(startup::find_recent_databases(Vec::new(), &paths(&["./notes.txt"])).is_empty());
    assert_eq!(
        business_picker::scan_cwd_for_dbs(&paths(&["/w/z.db", "/w/n.txt", "/w/a.db", "/w/Z.db"])),
        ["/w/Z.db", "/w/a.db", "/w/z.db"]
    );
    for name in &listed {
        let std = std::path::Path::new(name).extension().and_then(|e| e.to_str()) == Some("db");
        assert_eq!(startup::names_database(name), std, "{}", name);
    }
}

#[test]
fn failures_to_move_files_are_told() {
    let (mut view, _) =
        BusinessPickerView::new(vec![business("a")], vec![business("b")], true, Vec::new());
    view.set_status("Opened".to_string());
    view.mode = PickerMode::ConfirmArchive { biz_id: "a".to_string() };
    view.handle_key(KeyCode::Char('y'));
    assert!(view.status_message.is_none());
    view.archived_to(Err("full".to_string()), vec![business("a")], vec![business("b")]);
    assert!(matches!(view.mode, PickerMode::List));
    assert_eq!(view.error_message.as_deref(), Some("Archive failed: full"));
    view.handle_key(KeyCode::Down);
    assert!(view.error_message.is_none());
    view.mode = PickerMode::ConfirmRestore { biz_id: "b".to_string() };
    view.handle_key(KeyCode::Char('y'));
    view.restored_to(Err("gone".to_string()), vec![business("a")], vec![business("b")]);
    assert_eq!(view.error_message.as_deref(), Some("Restore failed: gone"));
    view.mode = PickerMode::ConfirmArchive { biz_id: "a".to_string() };
    view.handle_key(KeyCode::Char('y'));
    view.archived_to(Ok("/x".to_string()), Vec::new(), vec![business("b")]);
    assert_eq!(view.status_message.as_deref(), Some("Archived to /x"));
    assert!(view.error_message.is_none());
}

fn stored(id: i64, event: Event) -> StoredEvent {
    StoredEvent {
        id,
        timestamp: Timestamp {
            date: Date { year: 2024, month: 1, day: 5 },
            hour: 3,
            minute: 4,
            second: 5,
        },
        event_type: "account_deactivated".to_string(),
        entity_id: None,
        event,
    }
}

#[test]
fn events_are_summarised() {
    let e = Event::CompanyCreated { name: "Shop".into(), base_currency: "USD".into() };
    let s = events::format_event_summary(&e);
    assert!(s.contains("Shop") && s.contains("USD"), "{}", s);
    let e = Event::JournalEntryPosted { memo: "Rent".into(), amounts: vec![500, -500] };
    let s = events::format_event_summary(&e);
    assert!(s.contains("Rent"), "{}", s);
}

#[test]
fn the_log_starts_at_its_end() {
    let mut view = EventLogView::new();
    let log: Vec<StoredEvent> = (0..5)
        .map(|i| stored(i, Event::AccountReactivated { account_id: "0123456789".into() }))
        .collect();
    view.set_events(log);
    assert_eq!(view.selected, Some(4));
    assert_eq!(view.title(), " Event Log (5 events) ");
    view.handle_key(KeyCode::Up);
    assert_eq!(view.selected, Some(3));
    view.handle_key(KeyCode::Home);
    assert_eq!(view.selected, Some(0));
    view.handle_key(KeyCode::Up);
    assert_eq!(view.selected, Some(0));
    assert_eq!(stored(1, Event::UserRemoved { user_id: "u".into() }).timestamp.write(), "2024-01-05 03:04:05");
}

#[test]
fn only_shown_events_have_to_fit() {
    let mut view = EventLogView::new();
    let mut log: Vec<StoredEvent> = (0..5)
        .map(|i| stored(i, Event::AccountReactivated { account_id: "0123456789".into() }))
        .collect();
    log[0].entity_id = Some("aéééééééééé".to_string());
    view.set_events(log);
    view.selected = Some(0);
    assert!(!view.is_drawable(2));
    view.selected = Some(4);
    assert!(view.is_drawable(2));
    let p = view.draw(2);
    assert_eq!((p.first, p.lines.items.len()), (3, 2));
    assert!(!view.is_drawable(0));
    view.scroll_offset = 5;
    assert!(view.is_drawable(0));
    assert_eq!(view.draw(0).first, 4);
}
