use accountir::domain::{Account, AccountType};
use accountir::tui::chart;
use accountir::tui::chart::ChartStep;

fn account(id: &str, number: &str, name: &str) -> Account {
    Account {
        id: id.to_string(),
        account_number: number.to_string(),
        name: name.to_string(),
        account_type: AccountType::Expense,
        parent_id: None,
        description: None,
        is_active: true,
    }
}

#[test]
fn the_next_number_is_free() {
    let accounts = vec![
        account("a", "1000", "Assets"),
        account("b", "1003", "Cash"),
        account("c", "2000", "Income"),
        account("d", "x", "Other"),
    ];
    assert_eq!(chart::calculate_next_account_number(&accounts, "1000"), "1004");
    assert_eq!(chart::calculate_next_account_number(&accounts, "2000"), "2001");
    assert_eq!(chart::calculate_next_account_number(&accounts, "3000"), "3000");
    let last = vec![account("a", "1000", "Assets"), account("b", "1999", "Last")];
    assert_eq!(chart::calculate_next_account_number(&last, "1000"), "1001");
    let gap: Vec<Account> = (1000..2000)
        .filter(|n| *n != 1500)
        .map(|n| account("a", &n.to_string(), "Asset"))
        .collect();
    assert_eq!(chart::calculate_next_account_number(&gap, "1000"), "1500");
    let full: Vec<Account> =
        (1000..2000).map(|n| account("a", &n.to_string(), "Asset")).collect();
    assert_eq!(chart::calculate_next_account_number(&full, "1000"), "1999");
    let signed = vec![account("a", "+1000", "Signed")];
    assert_eq!(chart::calculate_next_account_number(&signed, "1000"), "1000");
    let padded = vec![account("a", "1000", "Assets"), account("b", "01001", "Padded")];
    assert_eq!(chart::calculate_next_account_number(&padded, "1000"), "1001");
    assert_eq!(chart::calculate_next_account_number(&accounts, "x"), "1001");
    assert_eq!(chart::read_number("42"), Some(42));
    assert_eq!(chart::read_number("x"), None);
}

#[test]
fn what_is_not_sorted_goes_to_one_account() {
    let accounts = vec![account("a", "3000", "Expenses"), account("u", "3999", "Uncategorized")];
    assert_eq!(
        chart::find_or_create_uncategorized_account(&accounts).ok().as_deref(),
        Some("u")
    );
    let last = vec![account("a", "9000", "Other"), account("b", "9999", "Last")];
    let plan = chart::find_or_create_uncategorized_account(&last).err().unwrap();
    assert_eq!(plan.account_number, "9001");
    let full: Vec<Account> =
        (9000..10000).map(|n| account("a", &n.to_string(), "Other")).collect();
    let plan = chart::find_or_create_uncategorized_account(&full).err().unwrap();
    assert_eq!(plan.account_number, "10000");
    let plan = chart::find_or_create_uncategorized_account(&Vec::new()).err().unwrap();
    assert_eq!(plan.account_number, "9000");
    assert_eq!(plan.name, "Uncategorized");
    assert_eq!(plan.account_type, AccountType::Expense);
    assert_eq!(
        plan.description.as_deref(),
        Some("Uncategorized transactions from CSV import")
    );
    assert_eq!(chart::uncategorized_created(Ok(Some("n".into()))), Ok("n".to_string()));
    assert_eq!(
        chart::uncategorized_created(Ok(None)),
        Err("Unexpected event type returned".to_string())
    );
    assert_eq!(
        chart::uncategorized_created(Err("full".into())),
        Err("Failed to create Uncategorized account: full".to_string())
    );
}

#[test]
fn the_default_chart_is_complete() {
    let mut making = chart::create_default_accounts();
    let mut created = Vec::new();
    let mut linked = Vec::new();
    let result = loop {
        match making.next() {
            ChartStep::Create(i) => {
                created.push(chart::default_at(i).number);
                making.created(Ok(Some(format!("id-{}", i))));
            }
            ChartStep::SetParent { account_id, parent_id } => {
                linked.push((account_id, parent_id));
                making.parent_set(None);
            }
            ChartStep::Done(result) => break result,
        }
    };
    assert_eq!(result, Ok(7));
    assert_eq!(created, ["1000", "1001", "2000", "3000", "4000", "4001", "5000"]);
    assert_eq!(
        linked,
        [("id-1".to_string(), "id-0".to_string()), ("id-5".to_string(), "id-4".to_string())]
    );
}

#[test]
fn a_failure_ends_the_default_chart() {
    let mut making = chart::create_default_accounts();
    assert!(matches!(making.next(), ChartStep::Create(0)));
    making.created(Err("full".to_string()));
    match making.next() {
        ChartStep::Done(Err(e)) => assert!(e.contains("full")),
        _ => panic!("expected a failure"),
    }
}

#[test]
fn books_that_cannot_be_counted_are_empty() {
    assert!(chart::has_no_accounts(Some(0)));
    assert!(!chart::has_no_accounts(Some(3)));
    assert!(chart::has_no_accounts(None));
}
