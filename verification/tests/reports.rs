use accountir::date::Date;
use accountir::domain::AccountType;
use accountir::input::KeyCode;
use accountir::queries::{
    AccountBalance, BalanceSheet, BalanceSheetLine, BalanceSheetSection, TrialBalanceLine,
};
use accountir::tui::paint::Rect;
use accountir::tui::theme::Theme;
use accountir::tui::views::dashboard::DashboardView;
use accountir::tui::views::report_tree;
use accountir::tui::views::report_tree::{ReportRow, TreeInput};
use accountir::tui::views::reports;
use accountir::tui::views::reports::{ReportPainting, ReportType, ReportsView};

const TODAY: Date = Date { year: 2024, month: 3, day: 1 };

fn line(id: &str, parent: Option<&str>, balance: i64) -> BalanceSheetLine {
    BalanceSheetLine {
        account_id: id.to_string(),
        account_number: id.to_string(),
        account_name: format!("Name {}", id),
        parent_id: parent.map(|p| p.to_string()),
        balance,
    }
}

fn input<'a>(id: &'a str, parent: Option<&'a str>, balance: i64) -> TreeInput<'a> {
    TreeInput { account_id: id, account_number: id, account_name: id, parent_id: parent, balance }
}

#[test]
fn subtotals_add_up_the_children() {
    let inputs = vec![
        input("1", None, 5),
        input("2", Some("1"), 10),
        input("3", Some("1"), 20),
        input("4", None, 1),
    ];
    assert!(report_tree::is_walkable(&inputs));
    assert_eq!(report_tree::compute_max_depth(&inputs), 1);
    let rows = report_tree::build_report_rows(&inputs, None);
    let subtotals: Vec<i64> = rows
        .iter()
        .filter_map(|r| match r {
            ReportRow::Subtotal { amount, .. } => Some(*amount),
            _ => None,
        })
        .collect();
    assert_eq!(subtotals, [35]);
    let leaves = rows.iter().filter(|r| matches!(r, ReportRow::Account { .. })).count();
    assert!(leaves >= 3);
    let flat = report_tree::build_report_rows(&inputs, Some(0));
    assert_eq!(flat.len(), 2);
    match &flat[0] {
        ReportRow::Account { balance, .. } => assert_eq!(*balance, 35),
        _ => panic!("expected one line for the whole group"),
    }
}

#[test]
fn totals_at_the_top_add_up() {
    let inputs = vec![
        input("a", None, 5),
        input("b", Some("a"), 10),
        input("c", Some("b"), 20),
        input("d", None, -7),
        input("e", Some("d"), 3),
        input("f", Some("nowhere"), 100),
    ];
    let top = report_tree::build_report_rows(&inputs, Some(0));
    let totals: Vec<i64> = top
        .iter()
        .map(|r| match r {
            ReportRow::Account { balance, .. } => *balance,
            _ => panic!("expected one line for each account at the top"),
        })
        .collect();
    assert_eq!(totals, [35, -4, 100]);
    let balances: i64 = inputs.iter().map(|i| i.balance).sum();
    assert_eq!(totals.iter().sum::<i64>(), balances);
}

fn depth(row: &ReportRow) -> usize {
    match row {
        ReportRow::Account { depth, .. } => *depth,
        ReportRow::ParentHeader { depth, .. } => *depth,
        ReportRow::Subtotal { depth, .. } => *depth,
    }
}

#[test]
fn collapsing_loses_nothing() {
    let inputs = vec![
        input("a", None, 5),
        input("b", Some("a"), 10),
        input("c", Some("b"), 20),
        input("d", None, -7),
        input("e", Some("d"), 3),
        input("f", Some("b"), 100),
    ];
    let deepest = report_tree::compute_max_depth(&inputs);
    assert_eq!(deepest, 2);
    let all = report_tree::build_report_rows(&inputs, None);
    for limit in [None, Some(0), Some(1), Some(2), Some(3)] {
        let rows = report_tree::build_report_rows(&inputs, limit);
        let top: i64 = rows
            .iter()
            .map(|r| match r {
                ReportRow::Account { balance, depth: 0, .. } => *balance,
                ReportRow::Subtotal { amount, depth: 0, .. } => *amount,
                _ => 0,
            })
            .sum();
        assert_eq!(top, 131);
        let headers = rows.iter().filter(|r| matches!(r, ReportRow::ParentHeader { .. })).count();
        let sums = rows.iter().filter(|r| matches!(r, ReportRow::Subtotal { .. })).count();
        assert_eq!(headers, sums);
        if let Some(d) = limit {
            assert!(rows.iter().all(|r| depth(r) <= d));
            assert_eq!(rows.len() == all.len(), d >= deepest);
        } else {
            let accounts = rows.iter().filter(|r| matches!(r, ReportRow::Account { .. })).count();
            assert_eq!(accounts + headers, inputs.len());
        }
    }
}

#[test]
fn circles_only_matter_where_they_are_walked() {
    let circle = || BalanceSheet {
        as_of_date: TODAY,
        assets: BalanceSheetSection {
            lines: vec![line("1", Some("2"), 100), line("2", Some("1"), 0)],
            total: 100,
        },
        liabilities: BalanceSheetSection { lines: vec![], total: 0 },
        equity: BalanceSheetSection { lines: vec![], total: 0 },
        total_assets: 100,
        total_liabilities_and_equity: 100,
    };
    let mut view = ReportsView::new(TODAY);
    view.balance_sheet = Some(circle());
    view.active_report = ReportType::TrialBalance;
    assert!(view.is_drawable() && view.takes(KeyCode::Char('-')));
    view.active_report = ReportType::BalanceSheet;
    assert!(!view.is_drawable());
    assert!(!view.takes(KeyCode::Char('-')));
    assert!(view.takes(KeyCode::Char('+')));
    view.handle_key(KeyCode::Char('['), TODAY);
    assert_eq!(view.report_date, Date { year: 2024, month: 2, day: 29 });
}

#[test]
fn circles_are_no_trees() {
    let inputs = vec![input("1", Some("2"), 5), input("2", Some("1"), 10)];
    assert!(!report_tree::is_acyclic(&inputs));
}

#[test]
fn prefixes_line_up() {
    assert_eq!(report_tree::make_tree_prefix(0, true, &vec![]), "");
    let a = report_tree::make_tree_prefix(2, false, &vec![false, true]);
    let b = report_tree::make_tree_prefix(2, true, &vec![true, false]);
    assert_eq!(a.chars().count(), b.chars().count());
}

#[test]
fn reports_form_a_cycle() {
    let mut view = ReportsView::new(TODAY);
    let first = view.active_report;
    for _ in 0..3 {
        view.handle_key(KeyCode::Right, TODAY);
    }
    assert_eq!(view.active_report, first);
    assert_eq!(ReportType::from_index(ReportType::BalanceSheet.index()), ReportType::BalanceSheet);
}

#[test]
fn days_step_back_and_forth() {
    let mut view = ReportsView::new(TODAY);
    view.previous_day();
    assert_eq!(view.report_date, Date { year: 2024, month: 2, day: 29 });
    assert!(view.needs_reload);
    view.next_day();
    assert_eq!(view.report_date, TODAY);
    view.next_day();
    view.reset_to_today(TODAY);
    assert_eq!(view.report_date, TODAY);
}

#[test]
fn the_trial_balance_adds_up() {
    let mut view = ReportsView::new(TODAY);
    view.active_report = ReportType::TrialBalance;
    view.trial_balance = vec![
        TrialBalanceLine {
            account_number: "1".into(),
            account_name: "Cash".into(),
            debit: Some(1000),
            credit: None,
        },
        TrialBalanceLine {
            account_number: "2".into(),
            account_name: "Sales".into(),
            debit: None,
            credit: Some(1000),
        },
    ];
    match view.draw(&Theme::dark()) {
        ReportPainting::Trial { table, .. } => {
            let text: String = table
                .rows
                .items
                .iter()
                .flat_map(|r| r.cells.items.iter().map(|c| c.text.clone()))
                .collect();
            assert!(text.contains("10.00"));
        }
        _ => panic!("expected the trial balance"),
    }
}

#[test]
fn a_balance_sheet_is_checked_before_it_is_drawn() {
    let sheet = BalanceSheet {
        as_of_date: TODAY,
        assets: BalanceSheetSection { lines: vec![line("1", None, 100)], total: 100 },
        liabilities: BalanceSheetSection { lines: vec![], total: 0 },
        equity: BalanceSheetSection { lines: vec![line("4", None, 100)], total: 100 },
        total_assets: 100,
        total_liabilities_and_equity: 100,
    };
    assert!(reports::check_sheet(&sheet));
    let mut view = ReportsView::new(TODAY);
    view.active_report = ReportType::BalanceSheet;
    assert!(matches!(view.draw(&Theme::dark()), ReportPainting::Message { .. }));
    view.balance_sheet = Some(sheet);
    assert!(matches!(view.draw(&Theme::dark()), ReportPainting::Sheet { .. }));
}

#[test]
fn the_dashboard_shows_the_equation() {
    let balance = |kind: AccountType, amount: i64| AccountBalance {
        account_id: "a".into(),
        account_number: "1".into(),
        account_name: "A".into(),
        account_type: kind,
        balance: amount,
    };
    let mut view = DashboardView::new();
    view.balances = vec![
        balance(AccountType::Asset, 1000),
        balance(AccountType::Liability, -200),
        balance(AccountType::Equity, -300),
        balance(AccountType::Revenue, -700),
        balance(AccountType::Expense, 200),
    ];
    let t = view.totals();
    assert_eq!((t.assets, t.liabilities, t.equity, t.net_income), (1000, 200, 300, 500));
    assert_eq!(t.assets, t.liabilities + t.equity + t.net_income);
}

#[test]
fn wide_areas_are_narrowed() {
    let area = Rect { x: 0, y: 0, width: 200, height: 10 };
    let r = reports::constrain_width(area, 100);
    assert_eq!(r.width, 100);
    assert_eq!(r.height, 10);
}
