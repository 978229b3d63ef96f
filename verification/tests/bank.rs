use accountir::collections::TextMap;
use accountir::date::Date;
use accountir::domain::{Account, AccountType};
use accountir::input::KeyCode;
use accountir::tui::imports;
use accountir::tui::imports::CompanyOutcome;
use accountir::tui::views::bank_import;
use accountir::tui::views::bank_import::{
    BankImportModal, BankImportResult, ImportPhase, ParsedTransaction, PendingImport,
};

fn account(id: &str) -> Account {
    Account {
        id: id.to_string(),
        account_number: "1000".to_string(),
        name: format!("Account {}", id),
        account_type: AccountType::Asset,
        parent_id: None,
        description: None,
        is_active: true,
    }
}

fn waiting(id: i64, bank: Option<&str>) -> PendingImport {
    PendingImport {
        id,
        file_path: "/tmp/s.csv".to_string(),
        file_name: "s.csv".to_string(),
        bank_id: bank.map(|b| b.to_string()),
        bank_name: "Bank".to_string(),
        transaction_count: Some(2),
        created_at: "2024-01-01".to_string(),
    }
}

const STATEMENT: &str = "Posting Date,Payee,Amount\n01/05/2024,Coffee,-3.50\n01/06/2024,Pay,10\n";

#[test]
fn a_statement_goes_through_all_steps() {
    let mut modal = BankImportModal::new();
    let mut kept = TextMap::new();
    kept.insert("b1".to_string(), "two".to_string());
    modal.set_mappings(kept);
    modal.set_accounts(vec![account("one"), account("two")]);
    modal.set_pending_imports(vec![waiting(7, Some("b1")), waiting(8, None)]);
    modal.show();
    assert_eq!(modal.draw(), Some(ImportPhase::SelectImport));
    let asked = modal.handle_key(KeyCode::Enter);
    assert_eq!(modal.phase, ImportPhase::SelectAccount);
    assert!(matches!(asked, BankImportResult::Nothing));
    assert_eq!(modal.selected_account_index, 1);
    assert_eq!(modal.get_selected_account().map(|a| a.id.as_str()), Some("two"));
    match modal.handle_key(KeyCode::Enter) {
        BankImportResult::LoadPreview(path) => assert_eq!(path, "/tmp/s.csv"),
        _ => panic!("expected the file"),
    }
    modal.preview_loaded(Ok(STATEMENT.to_string()));
    assert_eq!(modal.phase, ImportPhase::MapColumns);
    assert_eq!(
        (modal.date_column, modal.description_column, modal.amount_column),
        (Some(0), Some(1), Some(2))
    );
    match modal.handle_key(KeyCode::Enter) {
        BankImportResult::ReadTransactions(path) => assert_eq!(path, "/tmp/s.csv"),
        _ => panic!("expected the file"),
    }
    modal.transactions_read(Some(STATEMENT.to_string()));
    assert_eq!(modal.phase, ImportPhase::Preview);
    assert_eq!(modal.parsed_transactions.len(), 2);
    assert_eq!(modal.parsed_transactions[0].date, Date { year: 2024, month: 1, day: 5 });
    match modal.handle_key(KeyCode::Enter) {
        BankImportResult::Import { import_id, account_id, transactions, .. } => {
            assert_eq!(import_id, 7);
            assert_eq!(account_id, "two");
            assert_eq!(transactions.len(), 2);
        }
        _ => panic!("expected the import"),
    }
}

#[test]
fn a_statement_without_transactions_is_told() {
    let mut modal = BankImportModal::new();
    modal.set_accounts(vec![account("one")]);
    modal.set_pending_imports(vec![waiting(7, None)]);
    modal.show();
    modal.handle_key(KeyCode::Enter);
    modal.handle_key(KeyCode::Enter);
    modal.preview_loaded(Ok(STATEMENT.to_string()));
    modal.handle_key(KeyCode::Enter);
    modal.transactions_read(None);
    assert_eq!(modal.phase, ImportPhase::MapColumns);
    assert_eq!(modal.mapping_error.as_deref(), Some("No valid transactions found"));
}

#[test]
fn a_statement_can_be_skipped() {
    let mut modal = BankImportModal::new();
    modal.set_pending_imports(vec![waiting(7, None)]);
    modal.show();
    assert!(matches!(modal.handle_key(KeyCode::Char('d')), BankImportResult::Skip(7)));
    assert!(matches!(modal.handle_key(KeyCode::Esc), BankImportResult::Cancel));
    assert!(!modal.visible);
}

#[test]
fn the_highlight_stays_on_a_statement() {
    let mut modal = BankImportModal::new();
    modal.set_pending_imports(vec![waiting(1, None), waiting(2, None), waiting(3, None)]);
    modal.selected_import_index = 2;
    modal.set_pending_imports(vec![waiting(1, None)]);
    assert_eq!(modal.selected_import_index, 0);
    modal.set_pending_imports(Vec::new());
    assert_eq!(modal.selected_import_index, 0);
}

#[test]
fn transactions_have_amounts() {
    let text = "d,t,a\n2024-01-05,Coffee,-3.50\nx,y,1\n2024-01-06,Zero,0\n2024-01-07,Bad,abc\n";
    let read = bank_import::read_transactions(text, 0, 1, 2);
    assert!(read.iter().all(|t| t.amount != 0));
    assert_eq!(read.len(), 1);
    assert_eq!(read[0].amount, -350);
    assert_eq!(read[0].description, "Coffee");
}

fn transaction(amount: i64, selected: bool) -> ParsedTransaction {
    ParsedTransaction {
        date: Date { year: 2024, month: 1, day: 5 },
        description: "Coffee".to_string(),
        amount,
        selected,
    }
}

#[test]
fn only_selected_transactions_are_imported() {
    let all = vec![transaction(-350, true), transaction(5, false), transaction(7, true)];
    assert_eq!(imports::count_selected(&all), 2);
    let entries = imports::perform_bank_import(&all, "bank", "other");
    assert_eq!(entries.len(), 2);
    assert_eq!(entries[0].target_amount + entries[0].offset_amount, 0);
    assert_eq!(entries[1].target_account_id, "bank");
}

#[test]
fn the_bank_is_remembered_when_asked() {
    let bank = Some("b1".to_string());
    assert_eq!(imports::bank_to_remember(true, &bank).as_deref(), Some("b1"));
    assert_eq!(imports::bank_to_remember(false, &bank), None);
    assert_eq!(imports::bank_to_remember(true, &None), None);
}

#[test]
fn the_company_is_told() {
    assert_eq!(imports::company_name(&Some("books".to_string())), "books");
    assert_eq!(imports::company_name(&None), "My Company");
    assert_eq!(imports::ensure_company(&CompanyOutcome::Existing, "books"), None);
    let made = imports::ensure_company(&CompanyOutcome::Created, "books").unwrap();
    assert!(made.contains("books"));
    let failed = imports::ensure_company(&CompanyOutcome::NotRecorded("full".into()), "books");
    assert!(failed.unwrap().ends_with("full"));
    let failed = imports::ensure_company(&CompanyOutcome::NotProjected("slow".into()), "books");
    assert!(failed.unwrap().contains("slow"));
}
