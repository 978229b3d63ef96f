use accountir::date::Date;
use accountir::domain::{Account, AccountType};
use accountir::input::KeyCode;
use accountir::queries::EntrySearchResult;
use accountir::tui::views::journal;
use accountir::tui::views::journal::{JournalView, ReassignAccount, SortDirection, SortField};

fn entry(id: &str, day: u32, memo: &str, amount: i64) -> EntrySearchResult {
    EntrySearchResult {
        entry_id: id.to_string(),
        date: Date { year: 2024, month: 1, day },
        memo: memo.to_string(),
        reference: None,
        total_amount: amount,
        is_void: false,
        account_amount: Some(amount),
        other_account: Some("Other".to_string()),
        other_account_id: Some("other".to_string()),
    }
}

fn ids(view: &JournalView) -> Vec<String> {
    view.visible_entries().iter().map(|e| e.entry_id.clone()).collect()
}

fn account(id: &str) -> Account {
    Account {
        id: id.to_string(),
        account_number: "1000".to_string(),
        name: "Cash".to_string(),
        account_type: AccountType::Asset,
        parent_id: None,
        description: None,
        is_active: true,
    }
}

fn three() -> JournalView {
    let mut view = JournalView::new();
    view.entries = vec![
        entry("a", 3, "Rent", -500),
        entry("b", 1, "Apples", 20),
        entry("c", 2, "Milk", 100),
    ];
    view.sort_entries();
    view
}

#[test]
fn entries_are_sorted_and_none_is_lost() {
    let mut view = three();
    view.sort_field = SortField::Date;
    view.sort_direction = SortDirection::Ascending;
    view.sort_entries();
    assert_eq!(ids(&view), ["b", "c", "a"]);
    view.toggle_sort_direction();
    assert_eq!(ids(&view), ["a", "c", "b"]);
    view.sort_field = SortField::Memo;
    view.sort_direction = SortDirection::Ascending;
    view.sort_entries();
    assert_eq!(ids(&view), ["b", "c", "a"]);
    view.sort_field = SortField::Amount;
    view.sort_entries();
    assert_eq!(ids(&view), ["a", "b", "c"]);
}

#[test]
fn sort_settings_form_cycles() {
    let f = SortField::Date;
    assert_eq!(f.next().next().next().next(), f);
    assert_ne!(f.next(), f);
    assert_eq!(SortDirection::Ascending.toggle().toggle(), SortDirection::Ascending);
}

#[test]
fn the_last_balance_is_the_total() {
    let entries = vec![entry("a", 1, "x", 100), entry("b", 2, "y", -30), entry("c", 3, "z", 5)];
    let balances = journal::compute_balances(&entries);
    assert_eq!(balances.len(), 3);
    assert!(balances.contains(&75));
    let mut view = JournalView::new();
    view.set_filter(account("cash"));
    assert!(view.is_filtered());
    view.entries = entries;
    view.sort_direction = SortDirection::Ascending;
    view.sort_field = SortField::Date;
    view.sort_entries();
    assert_eq!(view.running_balances, [100, 70, 75]);
}

#[test]
fn void_entries_can_be_left_out() {
    let mut view = three();
    view.entries[0].is_void = true;
    let all = view.entries.len();
    let shown = view.visible_count();
    view.toggle_show_void();
    assert_ne!(view.visible_count(), shown);
    assert_eq!(view.visible_count().max(shown), all);
    assert_eq!(view.visible_count().min(shown), all - 1);
}

#[test]
fn voiding_needs_confirmation() {
    let mut view = three();
    view.state.selected = Some(0);
    let id = ids(&view)[0].clone();
    assert!(!view.handle_key(KeyCode::Char('x')));
    assert!(view.is_confirming_void());
    assert_eq!(view.take_confirmed_void(), None);
    view.handle_key(KeyCode::Char('n'));
    assert!(!view.is_confirming_void());
    view.handle_key(KeyCode::Char('x'));
    view.handle_key(KeyCode::Char('y'));
    assert_eq!(view.take_confirmed_void(), Some(id));
    assert_eq!(view.take_confirmed_void(), None);
}

#[test]
fn several_entries_can_be_chosen() {
    let mut view = three();
    view.state.selected = Some(0);
    view.toggle_multiselect();
    view.toggle_current_selection();
    let first = ids(&view)[0].clone();
    assert!(view.is_entry_selected(&first));
    assert!(view.has_selections());
    assert_eq!(view.get_selected_entry_ids(), [first.clone()]);
    view.toggle_current_selection();
    assert!(!view.is_entry_selected(&first));
    view.exit_multiselect();
    assert!(!view.multiselect_mode);
}

#[test]
fn an_entry_can_be_highlighted() {
    let mut view = three();
    let all = ids(&view);
    view.select_entry(&all[2]);
    assert_eq!(view.state.selected, Some(2));
    view.select_entry("nowhere");
    assert_eq!(view.state.selected, Some(2));
}

#[test]
fn a_line_is_reassigned_to_the_chosen_account() {
    let mut view = three();
    let choices = vec![
        ReassignAccount { id: "x".into(), account_number: "1".into(), name: "Food".into() },
        ReassignAccount { id: "y".into(), account_number: "2".into(), name: "Rent".into() },
    ];
    view.start_reassign(choices, "a".into(), "line".into(), "Other".into(), None);
    assert!(view.is_reassigning());
    for c in "rent".chars() {
        view.handle_key(KeyCode::Char(c));
    }
    assert_eq!(view.filtered_reassign_accounts(), [1]);
    view.handle_key(KeyCode::Enter);
    assert_eq!(
        view.take_reassign_confirmed(),
        Some(("a".to_string(), "line".to_string(), "y".to_string()))
    );
    assert!(!view.is_reassigning());
}

#[test]
fn the_journal_is_drawn() {
    let mut view = three();
    let painting = view.draw(20);
    assert!(painting.title.contains("Journal"));
    assert_eq!(painting.rows.items.len(), 3);
    assert!(painting.reassign.is_none());
}

#[test]
fn void_entries_are_not_selected() {
    let mut view = three();
    view.filter_account = Some(account("cash"));
    for e in &mut view.entries {
        e.is_void = e.entry_id == "c";
    }
    view.handle_key(KeyCode::Home);
    view.handle_key(KeyCode::Char('v'));
    view.handle_key(KeyCode::Down);
    view.handle_key(KeyCode::Down);
    let mut chosen = view.get_selected_entry_ids();
    chosen.sort();
    assert_eq!(chosen, ["a", "b"]);
}

#[test]
fn hiding_keeps_the_highlight() {
    let mut view = three();
    for e in &mut view.entries {
        e.is_void = e.entry_id == "a";
    }
    view.handle_key(KeyCode::Home);
    view.handle_key(KeyCode::Down);
    assert_eq!(ids(&view)[view.state.selected.unwrap()], "c");
    view.toggle_show_void();
    assert_eq!(ids(&view), ["c", "b"]);
    assert_eq!(ids(&view)[view.state.selected.unwrap()], "c");
}
