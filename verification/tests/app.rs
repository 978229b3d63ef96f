use accountir::collections::TextMap;
use accountir::date::Date;
use accountir::domain::{Account, AccountType};
use accountir::input::{KeyCode, KeyModifiers};
use accountir::queries::EntrySearchResult;
use accountir::tui::app::{ActiveView, App, AppPhase, AppRequest};
use accountir::tui::loading;
use accountir::tui::loading::{EntryQuery, EntryRow, LineRow, LoadedData, StagedRow, TransferRow};
use accountir::tui::outcomes;
use accountir::tui::outcomes::{BackgroundResult, Done, Opening, Reload};
use accountir::tui::paint::Rect;
use accountir::tui::screen;
use accountir::tui::screen::{Content, Layer};
use accountir::tui::session::{Command, Step};
use accountir::tui::theme::{Theme, ThemePreset};
use accountir::tui::views::help::HelpContext;
use accountir::tui::views::plaid_link::PlaidAccountOption;
use accountir::tui::views::plaid_staged::ConfidenceLevel;
use accountir::tui::views::welcome;

const TODAY: Date = Date { year: 2024, month: 3, day: 1 };

fn press(app: &mut App, key: KeyCode) -> AppRequest {
    app.handle_key(key, KeyModifiers::none(), TODAY)
}

fn account(id: &str, number: &str) -> Account {
    Account {
        id: id.to_string(),
        account_number: number.to_string(),
        name: format!("Account {}", id),
        account_type: AccountType::Asset,
        parent_id: None,
        description: None,
        is_active: true,
    }
}

fn entry(id: &str, day: u32) -> EntrySearchResult {
    EntrySearchResult {
        entry_id: id.to_string(),
        date: Date { year: 2024, month: 1, day },
        memo: id.to_string(),
        reference: None,
        total_amount: 100,
        is_void: false,
        account_amount: None,
        other_account: None,
        other_account_id: None,
    }
}

fn data() -> LoadedData {
    LoadedData {
        accounts: Some(vec![account("a", "1000"), account("b", "1001")]),
        balances: Some(Vec::new()),
        trial_balance: None,
        balance_sheet: None,
        income_statement: None,
        entries: vec![entry("e1", 2), entry("e2", 1)],
        events: None,
        plaid_mappings: Vec::new(),
        plaid_items: Vec::new(),
        staged_counts: Some((3, 1)),
        imports: Vec::new(),
        bank_accounts: TextMap::new(),
    }
}

fn in_books() -> App {
    let mut app = App::new(false, ThemePreset::Dark, Vec::new(), TODAY);
    let ready = app.database_opened(
        "/tmp/books.db".to_string(),
        false,
        Opening::Ready { company: None, no_accounts: false },
    );
    assert!(ready);
    app.load_data(data());
    app
}

#[test]
fn tabs_form_a_cycle() {
    let mut app = in_books();
    for i in 0..ActiveView::count() {
        assert_eq!(app.active_view.index(), i);
        assert_eq!(ActiveView::from_index(i), app.active_view);
        app.next_tab();
        app.previous_tab();
        assert_eq!(app.active_view.index(), i);
        app.next_tab();
    }
    assert_eq!(app.active_view, ActiveView::Dashboard);
    assert_eq!(ActiveView::from_index(99), ActiveView::Dashboard);
}

#[test]
fn the_welcome_screen_comes_first() {
    let mut app = App::new(true, ThemePreset::Dark, Vec::new(), TODAY);
    assert_eq!(app.phase, AppPhase::Welcome);
    assert_eq!(app.draw_ui(), [Layer::Welcome]);
    press(&mut app, KeyCode::Enter);
    assert_eq!(app.phase, AppPhase::Startup);
    assert_eq!(app.draw_ui(), [Layer::Startup]);
    assert_eq!(app.help_context(), HelpContext::Startup);
}

#[test]
fn the_welcome_preference_is_kept() {
    assert!(welcome::should_show_welcome(&None));
    assert!(welcome::should_show_welcome(&Some(welcome::set_show_welcome(true).to_string())));
    assert!(!welcome::should_show_welcome(&Some(welcome::set_show_welcome(false).to_string())));
    assert!(welcome::should_show_welcome(&Some(welcome::reset_welcome().to_string())));
}

#[test]
fn quitting_needs_yes() {
    let mut app = in_books();
    press(&mut app, KeyCode::Char('q'));
    assert!(!app.should_quit);
    assert!(app.show_quit_confirm);
    assert_eq!(app.draw_ui().last(), Some(&Layer::QuitConfirm));
    press(&mut app, KeyCode::Char('n'));
    assert!(!app.show_quit_confirm);
    press(&mut app, KeyCode::Char('q'));
    press(&mut app, KeyCode::Char('y'));
    assert!(app.should_quit);
    assert_eq!(app.round_end(true), (false, true));
}

#[test]
fn numbers_choose_a_screen() {
    let mut app = in_books();
    press(&mut app, KeyCode::Char('3'));
    assert_eq!(app.active_view, ActiveView::Journal);
    press(&mut app, KeyCode::Char('6'));
    assert_eq!(app.active_view, ActiveView::Plaid);
    assert_eq!(app.draw_main(&None).content, Content::Plaid);
    app.open_staged();
    assert_eq!(app.draw_main(&None).content, Content::StagedTransactions);
}

#[test]
fn work_in_the_background_blocks_keys() {
    let mut app = in_books();
    app.handle_busy_key(KeyCode::Char('3'));
    assert_eq!(app.active_view, ActiveView::Dashboard);
    app.handle_busy_key(KeyCode::Char('q'));
    assert!(app.show_quit_confirm);
    assert!(!app.has_background_task());
    app.handle_busy_key(KeyCode::Char('n'));
    assert!(!app.show_quit_confirm && !app.should_quit);
    app.handle_busy_key(KeyCode::Char('y'));
    assert!(!app.should_quit);
    app.handle_busy_key(KeyCode::Char('q'));
    app.handle_busy_key(KeyCode::Char('3'));
    assert!(app.show_quit_confirm && !app.should_quit);
    app.handle_busy_key(KeyCode::Char('y'));
    assert_eq!(app.round_end(true), (false, true));
}

#[test]
fn the_main_window_names_the_file() {
    let app = in_books();
    let painting = app.draw_main(&Some("books.db".to_string()));
    assert_eq!(painting.title, " Accountir - books.db ");
    assert_eq!(painting.tab, 0);
    assert_eq!(painting.status.items.len(), 5);
    assert_eq!(painting.status.items[1].text, "Opened /tmp/books.db");
    assert_eq!(painting.status.items[3].text, "");
    assert_eq!(app.draw_main(&None).title, " Accountir - unknown ");
}

#[test]
fn waiting_imports_are_counted() {
    let mut app = in_books();
    app.pending_import_count = 1;
    app.set_sync_server(true);
    let line = app.draw_main(&None).status;
    assert_eq!(line.items[3].text, " [b] 1 import ");
    assert_eq!(line.items[4].text, " Sync: :9876 ");
    app.pending_import_count = 2;
    assert_eq!(app.draw_main(&None).status.items[3].text, " [b] 2 imports ");
    assert!(app.check_for_new_imports(2000, 3));
    assert!(!app.check_for_new_imports(1999, 3));
    assert!(!app.check_for_new_imports(2000, 2));
    assert!(loading::import_check_due(2000));
}

#[test]
fn a_new_database_is_opened() {
    let mut app = App::new(false, ThemePreset::Dark, Vec::new(), TODAY);
    assert!(!app.database_opened("/x.db".into(), true, Opening::NotOpened("denied".into())));
    assert_eq!(app.status_message.as_deref(), Some("Failed to create database: denied"));
    assert!(!app.database_opened("/x.db".into(), true, Opening::NotReady("full".into())));
    assert_eq!(app.status_message.as_deref(), Some("Failed to initialize: full"));
    assert!(!app.database_opened("/x.db".into(), false, Opening::NotOpened("gone".into())));
    assert_eq!(app.status_message.as_deref(), Some("Failed to open database: gone"));
    assert!(!app.database_opened("/x.db".into(), false, Opening::NotReady("old".into())));
    assert_eq!(app.status_message.as_deref(), Some("Migration failed: old"));
    assert_eq!(app.phase, AppPhase::Startup);
    let ready = Opening::Ready { company: None, no_accounts: true };
    assert!(app.database_opened("/x.db".into(), true, ready));
    assert_eq!(app.phase, AppPhase::Main);
    assert_eq!(app.status_message.as_deref(), Some("New database created"));
    assert!(app.pending_default_accounts);
    assert_eq!(app.draw_ui().last(), Some(&Layer::DefaultAccounts));
    press(&mut app, KeyCode::Char('y'));
    assert!(matches!(app.run_step(Step::DefaultAccounts, true), Command::CreateDefaultAccounts));
    assert!(matches!(app.run_step(Step::DefaultAccounts, true), Command::Nothing));
}

#[test]
fn the_company_is_told_on_opening() {
    let mut app = App::new(false, ThemePreset::Dark, Vec::new(), TODAY);
    let ready = Opening::Ready { company: Some("made".into()), no_accounts: false };
    app.database_opened("/x.db".into(), false, ready);
    assert_eq!(app.status_message.as_deref(), Some("Opened /x.db (made)"));
    let mut app = App::new(false, ThemePreset::Dark, Vec::new(), TODAY);
    app.start_on("/x.db".into(), Some("made".into()), true, false, true);
    assert_eq!(app.phase, AppPhase::Main);
    assert_eq!(app.status_message.as_deref(), Some("made"));
    assert!(app.sync_server_running && app.pending_default_accounts);
}

#[test]
fn closing_forgets_the_books() {
    let mut app = in_books();
    app.open_staged();
    app.create_default_accounts = true;
    app.close_database(vec!["/tmp/books.db".to_string()], TODAY);
    assert!(!app.plaid_staged.visible && !app.create_default_accounts);
    assert!(app.pending_staged_action.is_none());
    assert_eq!(app.phase, AppPhase::Startup);
    assert_eq!(app.database_path, None);
    assert!(app.accounts.accounts.is_empty());
    assert!(app.journal.entries.is_empty());
    assert_eq!(app.round_end(true), (true, false));
    assert_eq!(app.round_end(false), (false, false));
}

#[test]
fn loaded_data_reach_the_screens() {
    let app = in_books();
    assert_eq!(app.accounts.tree_nodes.len(), 2);
    assert_eq!(app.plaid_view.staged_count, 3);
    assert_eq!(app.plaid_view.transfer_count, 1);
    assert_eq!(app.bank_import.available_accounts.len(), 2);
    assert_eq!(app.report_period().0, Date { year: 2024, month: 1, day: 1 });
    assert_eq!(app.report_period().1, TODAY);
    assert!(matches!(app.entry_query(), EntryQuery::Recent(100)));
}

#[test]
fn a_ledger_is_opened_from_the_chart() {
    let mut app = in_books();
    press(&mut app, KeyCode::Char('2'));
    app.accounts.state.selected = Some(1);
    press(&mut app, KeyCode::Enter);
    assert!(matches!(app.run_step(Step::Ledger, true), Command::LoadEntries));
    assert_eq!(app.active_view, ActiveView::Journal);
    match app.entry_query() {
        EntryQuery::OfAccount(id) => assert_eq!(id, "b"),
        EntryQuery::Recent(_) => panic!("expected the ledger"),
    }
    app.load_entries_and_select(vec![entry("e1", 2), entry("e2", 1)], "e2");
    let shown: Vec<String> =
        app.journal.visible_entries().iter().map(|e| e.entry_id.clone()).collect();
    assert_eq!(shown[app.journal.state.selected.unwrap()], "e2");
}

#[test]
fn a_round_has_all_steps() {
    let mut app = in_books();
    let mut step = Step::Startup;
    let mut count = 0;
    while step != Step::Keys {
        assert!(matches!(app.run_step(step, true), Command::Nothing | Command::LoadReports));
        step = step.next();
        count += 1;
    }
    assert_eq!(count, 22);
}

#[test]
fn outcomes_are_told() {
    let mut app = in_books();
    let cases: Vec<(Done, &str, bool)> = vec![
        (Done::DefaultAccounts(Ok(7)), "7 default accounts created", true),
        (Done::DefaultAccounts(Err("x".into())), "Failed to create accounts: x", false),
        (
            Done::AccountCreated { name: "Cash".into(), result: Ok(()) },
            "Account 'Cash' created",
            true,
        ),
        (
            Done::AccountUpdated { name: "Cash".into(), result: Err("x".into()) },
            "Failed to update account: x",
            false,
        ),
        (Done::EntryPosted { memo: "Rent".into(), result: Ok(()) }, "Entry 'Rent' posted", true),
        (
            Done::EntryPosted { memo: "Rent".into(), result: Err("x".into()) },
            "Failed to post entry: x",
            false,
        ),
        (Done::ImportSkipped, "Import skipped", true),
        (Done::Linked(Ok(())), "Plaid account linked", true),
        (Done::Unlinked(Err("x".into())), "Failed to unlink: x", false),
        (Done::Voided(Ok(())), "Entry voided", true),
        (Done::Unvoided(Err("x".into())), "Failed to unvoid entry: x", false),
        (Done::AllVoided(vec![Some(true), Some(true)]), "2 entries voided", true),
        (Done::AllVoided(vec![Some(true), Some(false)]), "1 voided, 1 failed", true),
        (Done::Reassigned(Ok(())), "Transaction reassigned", true),
        (Done::AllReassigned(vec![Some(true), None]), "1 transactions reassigned", true),
        (Done::AllReassigned(vec![Some(false), None]), "0 reassigned, 1 failed", true),
        (Done::Disconnected(Ok(())), "Plaid item disconnected", true),
    ];
    for (done, message, reload) in cases {
        assert_eq!(app.command_done(&done), reload, "{}", message);
        assert_eq!(app.status_message.as_deref(), Some(message));
    }
    assert_eq!(outcomes::tally(&vec![Some(true), None, Some(false), Some(true)]), (2, 1));
    assert_eq!(outcomes::void_plan(Some(true)), (true, "Unvoided via TUI"));
    assert_eq!(outcomes::void_plan(None), (false, "Voided via TUI"));
}

#[test]
fn background_results_are_told() {
    let mut app = in_books();
    let r = app.handle_background_result(BackgroundResult::Csv(Ok(5)));
    assert_eq!(r, Reload::Books);
    assert_eq!(app.status_message.as_deref(), Some("Imported 5 transactions"));
    let r = app.handle_background_result(BackgroundResult::Bank(Err("x".into())));
    assert_eq!(r, Reload::Nothing);
    assert_eq!(app.status_message.as_deref(), Some("Import failed: x"));
    app.bank_import.visible = true;
    app.handle_background_result(BackgroundResult::Bank(Ok(1)));
    assert!(!app.bank_import.visible);
    app.open_staged();
    let staged = BackgroundResult::Staged { message: "m".into(), all_done: false };
    assert_eq!(app.handle_background_result(staged), Reload::StagedAndBooks);
    assert!(app.plaid_staged.visible);
    assert_eq!(app.plaid_staged.status_message.as_deref(), Some("m"));
    let staged = BackgroundResult::Staged { message: "done".into(), all_done: true };
    app.handle_background_result(staged);
    assert!(!app.plaid_staged.visible);
    assert_eq!(app.status_message.as_deref(), Some("done"));
}

#[test]
fn an_entry_is_shown_with_its_sides() {
    let app = in_books();
    let row = EntryRow {
        date: "2024-01-05".to_string(),
        memo: "Rent".to_string(),
        reference: None,
        is_void: 1,
    };
    let line = |amount: i64| LineRow {
        amount,
        memo: None,
        account_number: "1".to_string(),
        account_name: "Cash".to_string(),
    };
    let detail = app.load_entry_detail("e", Some(row), &vec![line(500), line(-500)]).unwrap();
    assert_eq!(detail.date, Date { year: 2024, month: 1, day: 5 });
    assert!(detail.is_void);
    assert_eq!((detail.lines[0].debit, detail.lines[0].credit), (500, 0));
    assert_eq!((detail.lines[1].debit, detail.lines[1].credit), (0, 500));
    assert!(app.load_entry_detail("e", None, &Vec::new()).is_none());
    let bad = EntryRow { date: "x".into(), memo: "".into(), reference: None, is_void: 0 };
    assert!(app.load_entry_detail("e", Some(bad), &Vec::new()).is_none());
}

#[test]
fn linked_accounts_are_named() {
    let mut app = in_books();
    let option = |id: &str, mapped: Option<&str>| PlaidAccountOption {
        item_id: "i".into(),
        plaid_account_id: id.into(),
        institution_name: "Bank".into(),
        account_name: "Checking".into(),
        mask: None,
        account_type: "depository".into(),
        mapped_to_local_id: mapped.map(|m| m.to_string()),
        mapped_to_local_name: None,
    };
    app.open_plaid_link_modal(
        "a".to_string(),
        None,
        vec![option("p", Some("b")), option("q", Some("zz")), option("r", None)],
    );
    assert!(app.plaid_link.visible);
    assert_eq!(app.plaid_link.local_account_name, "Account a");
    let names: Vec<Option<&str>> = app
        .plaid_link
        .available_accounts
        .iter()
        .map(|o| o.mapped_to_local_name.as_deref())
        .collect();
    assert_eq!(names, [Some("Account b"), None, None]);
}

#[test]
fn staged_rows_are_named() {
    let mut app = in_books();
    let row = |merchant: Option<&str>, account: Option<&str>| StagedRow {
        id: "s".into(),
        date: "2024-01-01".into(),
        name: "RAW".into(),
        merchant_name: merchant.map(|m| m.to_string()),
        account_name: account.map(|m| m.to_string()),
        amount_cents: -5,
        card_holder: None,
    };
    let transfer = TransferRow {
        id: "t".into(),
        first: row(Some("Shop"), None),
        second: row(None, Some("Cash")),
        confidence: "95%".into(),
        confidence_level: ConfidenceLevel::High,
    };
    app.load_plaid_staged(&vec![transfer], &vec![row(None, None)]);
    let t = &app.plaid_staged.transfer_candidates[0];
    assert_eq!((t.txn1_name.as_str(), t.txn1_account.as_str()), ("Shop", "Unmapped"));
    assert_eq!((t.txn2_name.as_str(), t.txn2_account.as_str()), ("RAW", "Cash"));
    assert_eq!(app.plaid_staged.unmatched[0].account_name, "Unmapped");
    assert_eq!(app.plaid_staged.total_pending(), 2);
}

#[test]
fn dialogs_lie_in_the_middle() {
    let area = Rect { x: 0, y: 0, width: 80, height: 24 };
    let theme = Theme::dark();
    let d = screen::draw_quit_confirm(area, &theme);
    assert_eq!(d.area, Rect { x: 25, y: 9, width: 30, height: 5 });
    assert_eq!(d.inner, Rect { x: 27, y: 10, width: 26, height: 3 });
    assert_eq!(d.lines.items.len(), 3);
    let d = screen::draw_default_accounts_confirm(area, &theme);
    assert_eq!(d.area, Rect { x: 15, y: 5, width: 50, height: 14 });
    assert_eq!(d.lines.items.len(), 11);
    assert_eq!(d.lines.items[3].items[0].text, "  1001");
    assert_eq!(d.lines.items[3].items[1].text, "    Business Checking");
    let d = screen::draw_loading_modal("Importing CSV...", 5, area, &theme);
    assert_eq!(d.area, Rect { x: 28, y: 10, width: 24, height: 3 });
    assert_eq!(d.lines.items[0].items[0].text, "⠹ ");
}

#[test]
fn settings_can_be_cancelled() {
    let mut app = in_books();
    assert!(matches!(press(&mut app, KeyCode::Char(',')), AppRequest::OpenSettings));
    app.settings_opened(ThemePreset::Dark);
    assert!(app.settings.visible);
    press(&mut app, KeyCode::Right);
    assert_eq!(app.theme, Theme::from_preset(app.settings.selected_preset));
    assert_ne!(app.theme, Theme::dark());
    assert!(matches!(press(&mut app, KeyCode::Esc), AppRequest::RestoreTheme));
    app.theme_restored(ThemePreset::Dark);
    assert_eq!(app.theme, Theme::dark());
}

#[test]
fn presets_form_a_cycle() {
    let p = ThemePreset::Dark;
    assert_eq!(p.next().next().next(), p);
    assert_eq!(p.next().prev(), p);
}
