use accountir::date::Date;
use accountir::domain::{Account, AccountType};
use accountir::input::KeyCode;
use accountir::tui::paint::Rect;
use accountir::tui::theme::Theme;
use accountir::tui::views::account_form::{AccountForm, AccountFormResult};
use accountir::tui::views::account_form::FormField as AccountField;
use accountir::tui::views::accounts;
use accountir::tui::views::accounts::AccountsView;
use accountir::tui::views::entry_form::{EditableLine, EntryForm, EntryFormResult};
use accountir::tui::widgets;
use accountir::tui::widgets::TextField;

const TODAY: Date = Date { year: 2024, month: 3, day: 1 };

fn account(id: &str, number: &str, parent: Option<&str>) -> Account {
    Account {
        id: id.to_string(),
        account_number: number.to_string(),
        name: format!("Account {}", id),
        account_type: AccountType::Asset,
        parent_id: parent.map(|p| p.to_string()),
        description: None,
        is_active: true,
    }
}

fn line(account: Option<&str>, debit: &str, credit: &str) -> EditableLine {
    let mut l = EditableLine::new();
    l.account_id = account.map(|a| a.to_string());
    l.account_display = "x".to_string();
    l.debit_str = debit.to_string();
    l.credit_str = credit.to_string();
    l
}

#[test]
fn a_line_has_one_side() {
    assert_eq!(line(Some("a"), "12.50", "").amount(), 1250);
    assert_eq!(line(Some("a"), "", "12.50").amount(), -1250);
    assert!(line(Some("a"), "1", "").is_complete());
    assert!(!line(None, "1", "").is_complete());
    assert!(!line(Some("a"), "", "").is_complete());
}

#[test]
fn submitted_entries_balance() {
    let mut form = EntryForm::new();
    form.show(vec![account("a", "1", None), account("b", "2", None)], TODAY);
    assert_eq!(form.date_str, "2024-03-01");
    form.memo = "Lunch".to_string();
    form.lines = vec![line(Some("a"), "12.50", ""), line(Some("b"), "", "12.00")];
    form.handle_key_with_modifiers(
        KeyCode::Char('s'),
        accountir::input::KeyModifiers { shift: false, control: true, alt: false },
    );
    assert!(matches!(form.result, EntryFormResult::Nothing));
    assert!(form.error_message.is_some());
    form.lines[1].credit_str = "12.50".to_string();
    form.handle_key_with_modifiers(
        KeyCode::Char('s'),
        accountir::input::KeyModifiers { shift: false, control: true, alt: false },
    );
    match &form.result {
        EntryFormResult::Submit(data) => {
            assert_eq!(data.memo, "Lunch");
            assert_eq!(data.date, TODAY);
            assert_eq!(data.lines.iter().map(|l| l.amount).sum::<i64>(), 0);
        }
        _ => panic!("expected the entry, got {:?}", form.error_message),
    }
}

#[test]
fn an_entry_form_is_closed_with_escape() {
    let mut form = EntryForm::new();
    form.show(Vec::new(), TODAY);
    form.handle_key(KeyCode::Esc);
    assert!(matches!(form.result, EntryFormResult::Cancel));
}

#[test]
fn the_fields_of_an_account_form_a_cycle() {
    let mut f = AccountField::AccountType;
    for _ in 0..5 {
        assert_eq!(f.next().prev(), f);
        f = f.next();
    }
    assert_eq!(f, AccountField::AccountType);
}

#[test]
fn an_account_needs_a_number_and_a_name() {
    let mut form = AccountForm::new();
    form.show(Vec::new());
    form.active_field = AccountField::Description;
    form.handle_key(KeyCode::Enter);
    assert!(matches!(form.result, AccountFormResult::Nothing));
    assert!(form.error_message.is_some());
    form.account_number = "1001".to_string();
    form.name = "Checking".to_string();
    form.handle_key(KeyCode::Enter);
    match &form.result {
        AccountFormResult::Create(data) => {
            assert_eq!(data.name, "Checking");
            assert_eq!(data.account_number, "1001");
            assert_eq!(data.account_type, AccountType::Asset);
            assert_eq!(data.parent_id, None);
        }
        _ => panic!("expected the account, got {:?}", form.error_message),
    }
}

#[test]
fn no_account_is_its_own_parent() {
    let accounts = vec![account("a", "1", None), account("b", "2", None)];
    let mut form = AccountForm::new();
    form.show_edit(&account("a", "1", None), accounts);
    assert!(form.is_editing());
    assert!(form.available_parents.iter().all(|p| p.id != "a"));
    assert!(form.available_parents.iter().any(|p| p.id == "b"));
}

#[test]
fn the_chart_is_a_tree() {
    let list = vec![account("c", "1002", Some("a")), account("a", "1000", None), account("b", "1001", Some("a"))];
    assert!(accounts::can_chart(&list));
    let mut view = AccountsView::new();
    view.set_accounts(list);
    let order: Vec<&str> = view.tree_nodes.iter().map(|n| n.account.id.as_str()).collect();
    assert_eq!(order, ["a", "b", "c"]);
    assert_eq!(view.tree_nodes[1].depth, 1);
    assert!(view.tree_nodes[2].is_last_child);
    assert_eq!(view.draw().items.len(), 3);
    view.state.selected = Some(1);
    assert_eq!(view.get_selected_account().map(|a| a.id.as_str()), Some("b"));
    view.handle_key(KeyCode::Enter);
    assert_eq!(view.take_selected_account().map(|a| a.id), Some("b".to_string()));
    assert!(view.take_selected_account().is_none());
}

#[test]
fn secrets_are_masked() {
    let area = Rect { x: 0, y: 0, width: 20, height: 3 };
    let field = TextField::new(area, "Password", "abc", true).secret();
    let painting = widgets::draw_text_field(&field, &Theme::dark());
    assert!(!painting.content.contains("abc"));
    let field = TextField::new(area, "Name", "abc", false);
    let painting = widgets::draw_text_field(&field, &Theme::dark());
    assert!(painting.content.contains("abc"));
}

#[test]
fn boxes_are_centered() {
    let area = Rect { x: 0, y: 0, width: 100, height: 40 };
    let r = widgets::centered_rect(60, 50, area);
    assert_eq!(r, Rect { x: 20, y: 10, width: 60, height: 20 });
    let r = widgets::inner_rect(area, 2, 1);
    assert_eq!(r, Rect { x: 2, y: 1, width: 96, height: 38 });
    let r = widgets::modal_box(area, 60, 20);
    assert_eq!(r, Rect { x: 20, y: 10, width: 60, height: 20 });
    let small = Rect { x: 0, y: 0, width: 30, height: 10 };
    let r = widgets::modal_box(small, 60, 20);
    assert_eq!((r.width, r.height), (26, 6));
}

fn rounded(length: u16, percent: u32) -> u16 {
    ((length as u32 * percent + 50) / 100) as u16
}

#[test]
fn centered_boxes_round_to_whole_cells() {
    let sizes = [0u16, 1, 2, 3, 5, 7, 10, 13, 24, 25, 37, 50, 79, 80, 99, 121, 250, 1001, 65000];
    for percent in 0..=100u16 {
        for size in sizes {
            let area = Rect { x: 3, y: 7, width: size, height: 40 };
            let r = widgets::centered_rect(percent, 50, area);
            let side = (100 - percent as u32) / 2;
            let before = rounded(size, side);
            let upto = rounded(size, side + percent as u32);
            let expected = Rect { x: 3 + before, y: 17, width: upto - before, height: 20 };
            assert_eq!(r, expected, "{} percent of {}", percent, size);
            let tall = Rect { x: 7, y: 3, width: 40, height: size };
            let r = widgets::centered_rect(50, percent, tall);
            let expected = Rect { x: 17, y: 3 + before, width: 20, height: upto - before };
            assert_eq!(r, expected, "{} percent of {}", percent, size);
        }
    }
}

#[test]
fn long_texts_are_shortened() {
    assert_eq!(widgets::truncate("short", 10), "short");
    assert_eq!(widgets::truncate("a rather long text", 10), "a rathe...");
    assert!(widgets::fits("a rather long text", 10));
    assert!(!widgets::fits("éééééé", 4));
}
