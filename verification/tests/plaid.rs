use accountir::date::Date;
use accountir::input::KeyCode;
use accountir::tui::app::App;
use accountir::tui::outcomes::{BackgroundResult, Reload};
use accountir::tui::plaid_actions;
use accountir::tui::plaid_actions::{PlaidTask, StagedDone, StagedTask, SyncReply};
use accountir::tui::theme::{Theme, ThemePreset};
use accountir::tui::views::plaid::{PlaidAction, PlaidItemDisplay, PlaidPainting, PlaidView};
use accountir::tui::views::plaid_config;
use accountir::tui::views::plaid_config::{
    AuthMode, AuthReply, ConfigField, ConfigRequest, PlaidConfigModal, PlaidConfigResult,
};
use accountir::tui::views::plaid_link::{PlaidAccountOption, PlaidLinkModal, PlaidLinkResult};
use accountir::tui::views::plaid_staged::{
    ConfidenceLevel, PlaidStagedView, StagedAction, StagedTransactionDisplay,
    TransferCandidateDisplay,
};

const TODAY: Date = Date { year: 2024, month: 3, day: 1 };

fn item(id: &str, status: &str) -> PlaidItemDisplay {
    PlaidItemDisplay {
        id: id.to_string(),
        institution_name: "Bank".to_string(),
        status: status.to_string(),
        last_synced_at: None,
        accounts: Vec::new(),
    }
}

fn app() -> App {
    let mut app = App::new(false, ThemePreset::Dark, Vec::new(), TODAY);
    app.plaid_view.set_items(vec![item("i1", "active"), item("i2", "gone"), item("i3", "active")]);
    app
}

#[test]
fn a_bank_is_connected_in_the_browser() {
    let mut app = app();
    assert!(matches!(app.handle_plaid_action(PlaidAction::Connect, false), PlaidTask::Nothing));
    assert_eq!(
        app.status_message.as_deref(),
        Some("Plaid not configured. Press C to set proxy URL and API key.")
    );
    assert!(matches!(app.handle_plaid_action(PlaidAction::Connect, true), PlaidTask::Nothing));
    assert_eq!(
        app.status_message.as_deref(),
        Some("Sync server not running. Restart with: accountir tui")
    );
    app.set_sync_server(true);
    assert!(matches!(app.handle_plaid_action(PlaidAction::Connect, true), PlaidTask::OpenLink));
    assert_eq!(
        app.status_message.as_deref(),
        Some("Opening Plaid Link in browser at http://localhost:9876/plaid/link")
    );
    assert_eq!(plaid_actions::LINK_URL, "http://localhost:9876/plaid/link");
}

#[test]
fn only_active_connections_are_synchronised() {
    let mut app = app();
    match app.handle_plaid_action(PlaidAction::SyncAll, true) {
        PlaidTask::SyncAll(ids) => assert_eq!(ids, ["i1", "i3"]),
        _ => panic!("expected the connections"),
    }
    app.plaid_view.set_items(vec![item("i2", "gone")]);
    assert!(matches!(app.handle_plaid_action(PlaidAction::SyncAll, true), PlaidTask::Nothing));
    assert_eq!(app.status_message.as_deref(), Some("No active Plaid items to sync"));
    match app.handle_plaid_action(PlaidAction::Sync("i2".into()), true) {
        PlaidTask::Sync(id) => assert_eq!(id, "i2"),
        _ => panic!("expected the connection"),
    }
    assert_eq!(app.status_message.as_deref(), Some("Syncing i2..."));
}

#[test]
fn replies_of_the_server_are_told() {
    let mut app = app();
    let body = "{\"staged\": 12, \"skipped\": 3, \"transfer_candidates\": 2}";
    assert!(app.sync_done(&SyncReply::Accepted(body.to_string())));
    assert_eq!(
        app.status_message.as_deref(),
        Some("Synced: 12 staged, 3 skipped, 2 transfer candidates detected")
    );
    assert!(app.sync_done(&SyncReply::Accepted("{\"staged\": -1}".to_string())));
    assert_eq!(app.status_message.as_deref(), Some("Synced: 0 staged, 0 skipped"));
    assert!(!app.sync_done(&SyncReply::Unreachable("x".into())));
    assert_eq!(app.status_message.as_deref(), Some("Sync request failed: x"));
    let refused = SyncReply::Refused { status: "500".into(), text: "no".into() };
    assert!(!app.sync_done(&refused));
    assert_eq!(app.status_message.as_deref(), Some("Sync failed (500): no"));
    app.sync_done(&SyncReply::Unreadable("x".into()));
    assert_eq!(app.status_message.as_deref(), Some("Invalid sync response: x"));
    app.sync_done(&SyncReply::Aborted);
    assert_eq!(app.status_message.as_deref(), Some("Sync thread panicked"));
    app.sync_all_done(&vec![
        SyncReply::Accepted(body.to_string()),
        SyncReply::Accepted("{\"staged\": 1, \"skipped\": 4294967296}".to_string()),
        SyncReply::Aborted,
    ]);
    assert_eq!(app.status_message.as_deref(), Some("Sync all: 13 added, 3 skipped, 1 errors"));
}

fn transfer(id: &str) -> TransferCandidateDisplay {
    TransferCandidateDisplay {
        candidate_id: id.into(),
        txn1_name: "a".into(),
        txn1_account: "b".into(),
        txn1_date: "2024-01-01".into(),
        txn1_amount_cents: 5,
        txn2_name: "c".into(),
        txn2_account: "d".into(),
        txn2_date: "2024-01-02".into(),
        txn2_amount_cents: -5,
        confidence: "90%".into(),
        confidence_level: ConfidenceLevel::High,
    }
}

fn staged(id: &str) -> StagedTransactionDisplay {
    StagedTransactionDisplay {
        id: id.into(),
        date: "2024-01-01".into(),
        name: "x".into(),
        account_name: "y".into(),
        amount_cents: 5,
        card_holder: None,
    }
}

#[test]
fn staged_transactions_are_imported() {
    let mut app = app();
    app.plaid_staged.transfer_candidates = vec![transfer("t1"), transfer("t2")];
    app.plaid_staged.unmatched = vec![staged("s1")];
    let task = app.handle_staged_action(StagedAction::ImportAll);
    assert!(matches!(task, StagedTask::Nothing));
    app.database_path = Some("/x.db".to_string());
    match app.handle_staged_action(StagedAction::ImportAll) {
        StagedTask::ImportAll { path, check_balances } => {
            assert_eq!(path, "/x.db");
            assert!(check_balances);
        }
        _ => panic!("expected the import"),
    }
    assert_eq!(app.background_task.as_ref().unwrap().label, "Importing 3 transactions...");
    match app.handle_staged_action(StagedAction::ConfirmAllTransfers) {
        StagedTask::ImportTransfers { ids, .. } => assert_eq!(ids, ["t1", "t2"]),
        _ => panic!("expected the transfers"),
    }
    assert_eq!(app.background_task.as_ref().unwrap().label, "Importing 2 transfers...");
    app.open_staged();
    app.handle_staged_action(StagedAction::Back);
    assert!(!app.plaid_staged.visible);
}

#[test]
fn staged_outcomes_are_told() {
    let mut app = app();
    let cases: Vec<(StagedDone, &str, Reload)> = vec![
        (
            StagedDone::TransferImported(Ok(())),
            "Transfer imported successfully",
            Reload::StagedAndBooks,
        ),
        (
            StagedDone::TransferImported(Err("x".into())),
            "Failed to import transfer: x",
            Reload::Nothing,
        ),
        (StagedDone::TransferRejected(Ok(())), "Transfer candidate rejected", Reload::Staged),
        (
            StagedDone::TransferRejected(Err("x".into())),
            "Failed to reject transfer: x",
            Reload::Nothing,
        ),
        (StagedDone::Imported(Ok(())), "Transaction imported", Reload::StagedAndBooks),
        (StagedDone::Imported(Err("x".into())), "Failed to import: x", Reload::Nothing),
    ];
    for (done, message, reload) in cases {
        assert_eq!(app.staged_done(&done), reload);
        assert_eq!(app.plaid_staged.status_message.as_deref(), Some(message));
    }
}

fn staged_message(r: BackgroundResult) -> (String, bool) {
    match r {
        BackgroundResult::Staged { message, all_done } => (message, all_done),
        _ => panic!("expected staged transactions"),
    }
}

#[test]
fn background_imports_are_told() {
    let r = plaid_actions::transfers_result(Ok(vec![Some(true), Some(false), Some(true)]));
    assert_eq!(staged_message(r), ("Confirmed 2 transfers, 1 errors".to_string(), false));
    let r = plaid_actions::transfers_result(Err("x".into()));
    assert_eq!(staged_message(r), ("Import failed: x".to_string(), false));
    let r = plaid_actions::import_all_result(Ok((2, 3)));
    assert_eq!(staged_message(r), ("Imported 2 transfers, 3 unmatched".to_string(), true));
    let r = plaid_actions::import_all_result(Ok((0, 0)));
    assert_eq!(staged_message(r), ("Imported 0 transfers, 0 unmatched".to_string(), false));
    let r = plaid_actions::import_all_result(Err("x".into()));
    assert_eq!(staged_message(r), ("Import failed: x".to_string(), false));
}

#[test]
fn keys_always_check_balances() {
    let mut view = PlaidStagedView::new();
    view.transfer_candidates = vec![transfer("t1")];
    view.unmatched = vec![staged("s1")];
    view.show();
    for c in ' '..='~' {
        let action = view.handle_key(KeyCode::Char(c));
        assert!(!matches!(action, StagedAction::ImportAllSkipBalanceCheck));
    }
}

#[test]
fn highlighted_rows_are_shown() {
    let mut view = PlaidStagedView::new();
    view.transfer_candidates = (0..9).map(|i| transfer(&format!("t{}", i))).collect();
    view.unmatched = (0..9).map(|i| staged(&format!("s{}", i))).collect();
    view.transfer_index = 8;
    view.unmatched_index = 8;
    assert!(view.is_drawable(6, 5));
    let p = PlaidStagedView::new().render(6, 5, &Theme::dark());
    let words = |l: &Option<accountir::tui::paint::Line>| {
        l.as_ref().map(|l| l.items[0].text.clone()).unwrap_or_default()
    };
    assert_eq!(words(&p.no_transfers), "  No transfer candidates detected.");
    assert_eq!(words(&p.no_unmatched), "  No unmatched staged transactions.");
    assert!(p.status.is_none());
    view.status_message = Some("Done".to_string());
    let p = view.render(6, 5, &Theme::dark());
    assert!(p.no_transfers.is_none() && p.no_unmatched.is_none());
    assert_eq!(words(&p.status), "Done");
    assert_eq!((p.transfers.items.len(), p.unmatched.items.len()), (3, 2));
    view.unmatched[8].name = "é".repeat(40);
    view.unmatched[8].name.insert(0, 'a');
    assert!(!view.is_drawable(6, 5));
    view.unmatched_index = 0;
    assert!(view.is_drawable(6, 5));
}

#[test]
fn without_connections_there_is_a_message() {
    let view = PlaidView::new();
    assert!(matches!(view.render(false, &Theme::dark()), PlaidPainting::Empty { .. }));
    let mut view = PlaidView::new();
    view.load(vec![item("i1", "active")], Some((2, 1)));
    assert!(matches!(view.render(true, &Theme::dark()), PlaidPainting::Table { .. }));
    assert_eq!((view.staged_count, view.transfer_count), (2, 1));
}

#[test]
fn replies_of_the_proxy_are_read() {
    let ok = AuthReply::Accepted("{\"api_key\": \"k\"}".to_string());
    assert_eq!(plaid_config::read_reply(&ok, AuthMode::Login).ok().as_deref(), Some("k"));
    let empty = AuthReply::Accepted("{}".to_string());
    assert!(plaid_config::read_reply(&empty, AuthMode::Login).is_err());
    let down = AuthReply::Unreachable("x".to_string());
    assert!(plaid_config::read_reply(&down, AuthMode::Register).is_err());
}

#[test]
fn addresses_lose_their_slashes() {
    assert_eq!(plaid_config::normalize("https://p.example/"), "https://p.example");
    assert_eq!(plaid_config::normalize(" https://p.example "), "https://p.example");
}

#[test]
fn the_proxy_is_asked_for_a_key() {
    let mut modal = PlaidConfigModal::new();
    modal.show(Some("https://p.example/".to_string()), false);
    assert_eq!(modal.active_field, ConfigField::ProxyUrl);
    assert!(modal.draw(&Theme::dark()).registered.is_none());
    assert_eq!(modal.active_field.next().prev(), ConfigField::ProxyUrl);
    modal.email = "me@example.com".to_string();
    modal.password = "long enough".to_string();
    modal.active_field = ConfigField::Password;
    match modal.handle_key(KeyCode::Enter) {
        ConfigRequest::Authenticate { endpoint, email, password } => {
            assert!(endpoint.starts_with("https://p.example/"));
            assert_eq!(email, "me@example.com");
            assert_eq!(password, "long enough");
        }
        _ => panic!("expected a request, got {:?}", modal.error_message),
    }
    match modal.authenticated(&AuthReply::Accepted("{\"api_key\": \"k\"}".to_string())) {
        ConfigRequest::Save { proxy_url, api_key } => {
            assert_eq!(proxy_url, "https://p.example");
            assert_eq!(api_key.as_deref(), Some("k"));
        }
        _ => panic!("expected the configuration"),
    }
    modal.saved(None);
    assert_eq!(modal.result, PlaidConfigResult::Saved);
}

#[test]
fn taken_accounts_are_not_linked() {
    let option = |id: &str, mapped: Option<&str>| PlaidAccountOption {
        item_id: "i".into(),
        plaid_account_id: id.into(),
        institution_name: "Bank".into(),
        account_name: "Checking".into(),
        mask: None,
        account_type: "depository".into(),
        mapped_to_local_id: mapped.map(|m| m.to_string()),
        mapped_to_local_name: None,
    };
    let mut modal = PlaidLinkModal::new();
    modal.show("a".into(), "A".into(), None, vec![option("p", Some("b")), option("q", None)]);
    modal.handle_key(KeyCode::Enter);
    assert!(!matches!(modal.result, PlaidLinkResult::Link { .. }));
    modal.handle_key(KeyCode::Down);
    modal.handle_key(KeyCode::Enter);
    match &modal.result {
        PlaidLinkResult::Link { item_id, plaid_account_id, local_account_id } => {
            assert_eq!((item_id.as_str(), plaid_account_id.as_str()), ("i", "q"));
            assert_eq!(local_account_id, "a");
        }
        _ => panic!("expected the link"),
    }
}
