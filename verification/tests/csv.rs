use accountir::date::Date;
use accountir::domain::{Account, AccountType};
use accountir::input::KeyCode;
use accountir::text;
use accountir::tui::imports;
use accountir::tui::theme::Theme;
use accountir::tui::views::csv_import;
use accountir::tui::views::csv_import::{
    AccountChoice, ColumnField, CsvImportModal, FileOutcome, ImportConfig, ImportRequest,
    ImportStep, ParseField, Suggestion,
};
use accountir::tui::views::csv_import_draw;

fn day(year: i32, month: u32, day: u32) -> Date {
    Date { year, month, day }
}

fn account(id: &str, account_type: AccountType) -> Account {
    Account {
        id: id.to_string(),
        account_number: "1000".to_string(),
        name: id.to_string(),
        account_type,
        parent_id: None,
        description: None,
        is_active: true,
    }
}

fn config(target: Option<&str>) -> ImportConfig {
    ImportConfig {
        file_path: "/tmp/a.csv".to_string(),
        date_column: 0,
        description_column: 1,
        amount_column: 2,
        target_account_id: target.map(|t| t.to_string()),
        skip_lines: 0,
        has_header: true,
        delimiter: ',',
    }
}

const FILE: &str = "Date,Description,Amount\n2024-01-05,Coffee,-3.50\n2024-01-02,\"Pay, \"\"Inc\"\"\",1000\nbad,row,1\n2024-01-03,Zero,0\n2024-01-04,None,abc\n";

#[test]
fn quoted_fields_are_read_back() {
    assert_eq!(csv_import::parse_csv_line("a,b,c"), ["a", "b", "c"]);
    assert_eq!(csv_import::parse_csv_line("\"a,b\",\"say \"\"hi\"\"\""), ["a,b", "say \"hi\""]);
    assert_eq!(csv_import::parse_csv_line(" a , b "), ["a", "b"]);
    assert_eq!(csv_import::parse_csv_line(""), [""]);
    assert_eq!(csv_import::parse_delimited_line("a;b,c", ';'), ["a", "b,c"]);
    assert_eq!(csv_import::parse_delimited_line("a\tb", '\t'), ["a", "b"]);
}

#[test]
fn dates_are_read_in_six_formats() {
    assert_eq!(csv_import::parse_date("2024/02/29"), Some(day(2024, 2, 29)));
    assert_eq!(csv_import::parse_date(" 2024-02-29 "), Some(day(2024, 2, 29)));
    assert_eq!(csv_import::parse_date("02/29/24"), Some(day(2024, 2, 29)));
    assert_eq!(csv_import::parse_date("02-29-24"), Some(day(2024, 2, 29)));
    assert_eq!(csv_import::parse_date("2023-02-29"), None);
    assert_eq!(csv_import::parse_date("yesterday"), None);
    assert_eq!(csv_import::parse_date("03/09/24"), Some(day(2024, 3, 9)));
    assert_eq!(csv_import::parse_date("03-09-24"), Some(day(2024, 3, 9)));
    assert_eq!(csv_import::parse_date("1/2/03"), Some(day(2003, 1, 2)));
    assert_eq!(csv_import::parse_date("12/31/1999"), Some(day(1999, 12, 31)));
    assert_eq!(csv_import::parse_date("12-31-1999"), Some(day(1999, 12, 31)));
    assert_eq!(csv_import::parse_date("2024-1-5"), Some(day(2024, 1, 5)));
    assert_eq!(csv_import::parse_date("0024-01-05"), Some(day(24, 1, 5)));
    assert_eq!(csv_import::parse_date("31/12/1999"), None);
    assert_eq!(csv_import::parse_date("13/02/24"), None);
    assert_eq!(csv_import::parse_date("12/31/199"), None);
}

#[test]
fn negative_amounts_negate() {
    for s in ["5", "$1,234.56", ".5", "1.", "$", "", "1.2.3", ",", "99999999999999999999"] {
        let negated = csv_import::parse_amount(s).map(|c| -c);
        assert_eq!(csv_import::parse_amount(&format!("-{}", s)), negated, "{}", s);
        assert_eq!(csv_import::parse_amount(&format!("({})", s)), negated, "{}", s);
        let bare: String = s.chars().filter(|c| *c != '$' && *c != ',').collect();
        assert_eq!(csv_import::parse_amount(&bare), csv_import::parse_amount(s), "{}", s);
    }
    assert_eq!(csv_import::parse_amount("$1,234.56"), Some(123456));
    assert_eq!(csv_import::parse_amount("1234.56"), Some(123456));
    assert_eq!(csv_import::parse_amount("(12.34)"), Some(-1234));
    for s in ["", "$", "-", "abc", "(-)", "..", "- -"] {
        assert_eq!(csv_import::parse_amount(s), None, "{}", s);
    }
}

#[test]
fn white_space_is_trimmed() {
    for n in 0..0x110000u32 {
        if let Some(c) = char::from_u32(n) {
            let listed = matches!(
                n,
                9..=13 | 32 | 0x85 | 0xa0 | 0x1680 | 0x2000..=0x200a | 0x2028 | 0x2029 | 0x202f
                    | 0x205f | 0x3000
            );
            assert_eq!(c.is_whitespace(), listed, "{:x}", n);
        }
    }
    assert_eq!(text::trim("\u{3000} a\u{a0}b \t\n"), "a\u{a0}b");
    assert_eq!(text::trim("\u{200b}"), "\u{200b}");
}

#[test]
fn the_date_range_is_met() {
    let s = csv_import::summarize("2024-03-01,a,1\n2024-01-01,b,2\n", 0, false, ',', 0, 1, 2);
    assert_eq!((s.min_date, s.max_date), (Some(day(2024, 1, 1)), Some(day(2024, 3, 1))));
    let s = csv_import::summarize("2024-03-01,a,0\n", 0, false, ',', 0, 1, 2);
    assert_eq!((s.min_date, s.max_date), (None, None));
}

#[test]
fn the_summary_accounts_for_every_line() {
    let s = csv_import::summarize(FILE, 0, true, ',', 0, 1, 2);
    assert_eq!(s.total_rows, 5);
    assert_eq!(s.invalid_date, 1);
    assert_eq!(s.invalid_amount, 1);
    assert_eq!(s.zero_amount, 1);
    assert_eq!(s.parsed.len(), 2);
    assert_eq!(s.min_date, Some(day(2024, 1, 2)));
    assert_eq!(s.max_date, Some(day(2024, 1, 5)));
    assert_eq!(s.total_positive, 100000);
    assert_eq!(s.total_negative, -350);
    assert_eq!(s.parsed[0].description, "Coffee");
    assert_eq!(s.parsed[1].description, "Pay, \"Inc\"");
}

#[test]
fn the_delimiter_is_guessed() {
    assert_eq!(csv_import::guess_delimiter("a;b;c\n1;2;3\n"), ';');
    assert_eq!(csv_import::guess_delimiter("a\tb\n"), '\t');
    assert_eq!(csv_import::guess_delimiter("nothing\n"), ',');
    assert_eq!(csv_import::guess_delimiter(""), ',');
    assert_eq!(csv_import::pick_delimiter("a|b|c,d"), '|');
}

#[test]
fn previews_say_what_is_missing() {
    assert!(csv_import::make_preview("a,b\n1,2\n", 0, true, ',').is_ok());
    let e = csv_import::make_preview("a,b\n", 3, true, ',').err();
    assert_eq!(e.as_deref(), Some("Skip count exceeds the number of lines in the file"));
    let e = csv_import::make_preview("a,b\n", 1, true, ',').err();
    assert_eq!(e.as_deref(), Some("No header row after skipped lines"));
    let e = csv_import::make_preview("a,b\n", 1, false, ',').err();
    assert_eq!(e.as_deref(), Some("No data rows after skipped lines"));
    let p = csv_import::make_preview("1,2,3\n4,5\n", 0, false, ',').ok().unwrap();
    assert_eq!(p.headers.len(), 3);
    assert_eq!(p.rows.len(), 2);
}

#[test]
fn columns_are_found_by_their_names() {
    let headers: Vec<String> =
        ["Posted TIME", "Full Name", "Total"].iter().map(|s| s.to_string()).collect();
    assert_eq!(csv_import::detect_column(&headers, ColumnField::Date), Some(0));
    assert_eq!(csv_import::detect_column(&headers, ColumnField::Description), Some(1));
    assert_eq!(csv_import::detect_column(&headers, ColumnField::Amount), Some(2));
    let none: Vec<String> = vec!["x".to_string()];
    assert_eq!(csv_import::detect_column(&none, ColumnField::Date), None);
}

#[test]
fn fields_and_delimiters_form_cycles() {
    let f = ColumnField::Date;
    assert_eq!(f.next().next().next(), f);
    assert_eq!(f.next().prev(), f);
    let p = ParseField::SkipLines;
    assert_eq!(p.next().next().next(), p);
    assert_eq!(p.next().prev(), p);
    assert_eq!(csv_import_draw::delimiter_label_short(','), ",");
}

#[test]
fn suggestions_keep_matching_files() {
    let entries = vec![
        Suggestion { path: "/a/data.csv".into(), name: "data.csv".into(), is_dir: false },
        Suggestion { path: "/a/notes.txt".into(), name: "notes.txt".into(), is_dir: false },
        Suggestion { path: "/a/dir".into(), name: "dir".into(), is_dir: true },
    ];
    let all = csv_import::list_suggestions("", &entries);
    assert!(all.iter().any(|s| s.name == "data.csv"));
    assert!(all.iter().any(|s| s.name == "dir"));
    let some = csv_import::list_suggestions("da", &entries);
    assert_eq!(some.len(), 1);
    assert_eq!(some[0].path, "/a/data.csv");
}

#[test]
fn the_home_directory_is_written_out() {
    let home = Some("/home/me".to_string());
    assert_eq!(csv_import::expand_tilde("~/a.csv", &home), "/home/me/a.csv");
    assert_eq!(csv_import::expand_tilde("/b.csv", &home), "/b.csv");
    assert_eq!(csv_import::expand_tilde("~/a.csv", &None), "~/a.csv");
}

fn opened() -> CsvImportModal {
    let mut modal = CsvImportModal::new();
    modal.show(vec![AccountChoice {
        id: "bank".to_string(),
        name: "Checking".to_string(),
        account_number: "1001".to_string(),
        account_type: AccountType::Asset,
    }]);
    modal
}

#[test]
fn a_file_goes_through_all_steps() {
    let mut modal = opened();
    assert!(modal.visible);
    assert_eq!(modal.draw(), Some(ImportStep::SelectFile));
    modal.file_path = "/tmp/a.csv".to_string();
    assert!(matches!(modal.handle_key(KeyCode::Enter), ImportRequest::ReadFile));
    modal.file_loaded(FileOutcome::Content(FILE.to_string()));
    assert_eq!(modal.step, ImportStep::Parsing);
    modal.handle_key(KeyCode::Enter);
    assert_eq!(modal.step, ImportStep::SelectAccount);
    modal.handle_key(KeyCode::Enter);
    assert_eq!(modal.step, ImportStep::MapColumns);
    assert_eq!(modal.target_account_id.as_deref(), Some("bank"));
    assert_eq!(
        (modal.date_column, modal.description_column, modal.amount_column),
        (Some(0), Some(1), Some(2))
    );
    modal.handle_key(KeyCode::Enter);
    assert_eq!(modal.step, ImportStep::Confirm);
    assert!(modal.get_import_config().is_none());
    let painting = modal.draw_confirm(20, &Theme::dark());
    assert_eq!(painting.header.items.len(), 4);
    modal.handle_key(KeyCode::Enter);
    let plan = modal.get_import_config().unwrap();
    assert_eq!(plan.file_path, "/tmp/a.csv");
    assert_eq!(plan.target_account_id.as_deref(), Some("bank"));
    assert_eq!((plan.date_column, plan.description_column, plan.amount_column), (0, 1, 2));
}

#[test]
fn files_that_cannot_be_read_are_told() {
    let mut modal = opened();
    modal.file_path = "/tmp/none.csv".to_string();
    modal.file_loaded(FileOutcome::NotFound);
    assert_eq!(modal.error_message.as_deref(), Some("File not found"));
    modal.file_loaded(FileOutcome::NotAFile);
    assert!(modal.error_message.is_some());
    modal.file_loaded(FileOutcome::Unreadable("denied".to_string()));
    assert!(modal.error_message.as_deref().unwrap().ends_with("denied"));
    assert_eq!(modal.step, ImportStep::SelectFile);
}

#[test]
fn imported_entries_balance() {
    let accounts = vec![account("bank", AccountType::Asset), account("card", AccountType::Liability)];
    let entries = imports::perform_csv_import(FILE, &config(Some("bank")), &accounts, "bank", "other");
    assert_eq!(entries.len(), 2);
    for e in &entries {
        assert_eq!(e.target_amount + e.offset_amount, 0);
        assert_eq!(e.target_account_id, "bank");
        assert_eq!(e.offset_account_id, "other");
    }
    assert_eq!(entries[0].memo, "Coffee");
    assert_eq!(entries[0].target_amount, -350);
    let entries = imports::perform_csv_import(FILE, &config(Some("card")), &accounts, "card", "other");
    assert_eq!(entries[0].target_amount, 350);
}

#[test]
fn the_review_shows_what_is_imported() {
    let summary = csv_import::summarize(FILE, 0, true, ',', 0, 1, 2);
    let entries =
        imports::perform_csv_import(FILE, &config(Some("bank")), &Vec::new(), "bank", "other");
    assert_eq!(summary.parsed.len(), entries.len());
    for (row, entry) in summary.parsed.iter().zip(&entries) {
        assert_eq!(row.date, entry.date);
        assert_eq!(row.description, entry.memo);
        assert_eq!(row.amount, entry.target_amount);
    }
}

#[test]
fn an_import_needs_a_file_and_an_account() {
    let r = imports::csv_import_inputs(Ok("x".to_string()), &config(Some("bank")));
    assert_eq!(r.ok(), Some(("x".to_string(), "bank".to_string())));
    let r = imports::csv_import_inputs(Err("gone".to_string()), &config(Some("bank")));
    assert_eq!(r.err().as_deref(), Some("Failed to read file: gone"));
    let r = imports::csv_import_inputs(Ok("x".to_string()), &config(None));
    assert_eq!(r.err().as_deref(), Some("Target account is required for CSV import"));
}
