use accountir::domain::{Account, AccountType, ReportingFrequency};
use accountir::input::KeyCode;
use accountir::queries::ServiceDisplay;
use accountir::tui::theme::Theme;
use accountir::tui::views::service_form::{FormField, ServiceFormModal, ServiceFormResult};
use accountir::tui::views::services::{
    next_frequency, ServiceAction, ServicesPainting, ServicesView,
};
use accountir::tui::views::staged_events::{MappingEditorState, StagedEventsView};
use accountir::tui::views::sync_results::SyncResultsModal;

fn account(name: &str, is_active: bool) -> Account {
    Account {
        id: name.to_string(),
        account_number: "1000".to_string(),
        name: name.to_string(),
        account_type: AccountType::Asset,
        parent_id: None,
        description: None,
        is_active,
    }
}

fn service(id: &str, reporting: ReportingFrequency) -> ServiceDisplay {
    ServiceDisplay {
        id: id.to_string(),
        name: format!("Service {}", id),
        root_url: "https://example.com".to_string(),
        reporting,
        status: "active".to_string(),
        last_synced_at: None,
        events_processed: 3,
        entries_created: 2,
    }
}

#[test]
fn the_cycle_visits_every_frequency_and_returns() {
    let mut seen = Vec::new();
    let mut f = ReportingFrequency::PerEvent;
    for _ in 0..ReportingFrequency::ALL.len() {
        seen.push(f);
        f = next_frequency(f);
    }
    assert_eq!(f, ReportingFrequency::PerEvent, "the cycle must wrap");
    assert_eq!(seen.len(), ReportingFrequency::ALL.len());
    let unique: std::collections::HashSet<_> = seen.iter().collect();
    assert_eq!(unique.len(), seen.len(), "a frequency was visited twice");
}

#[test]
fn f_asks_for_the_next_frequency() {
    let mut view = ServicesView::new();
    view.set_services(vec![
        service("a", ReportingFrequency::Monthly),
        service("b", ReportingFrequency::Daily),
    ]);
    match view.handle_key(KeyCode::Char('f')) {
        ServiceAction::CycleReporting(id, f) => {
            assert_eq!(id, "a");
            assert_eq!(f, ReportingFrequency::PerEvent);
        }
        _ => panic!("expected a new frequency"),
    }
    view.handle_key(KeyCode::Down);
    match view.handle_key(KeyCode::Char('f')) {
        ServiceAction::CycleReporting(id, f) => {
            assert_eq!(id, "b");
            assert_eq!(f, ReportingFrequency::Weekly);
        }
        _ => panic!("expected a new frequency"),
    }
}

#[test]
fn without_services_there_is_a_message() {
    let view = ServicesView::new();
    assert!(matches!(view.render(&Theme::dark()), ServicesPainting::Empty(_)));
}

#[test]
fn a_service_needs_all_three_fields() {
    let mut form = ServiceFormModal::new();
    form.show();
    assert!(form.visible);
    assert_eq!(form.active_field, FormField::Name);
    form.submit();
    assert!(form.error_message.is_some());
    assert!(matches!(form.result, ServiceFormResult::Nothing));
    form.name = "Shop".to_string();
    form.root_url = "https://shop.example".to_string();
    form.api_key = "k".to_string();
    form.submit();
    match &form.result {
        ServiceFormResult::Saved { name, root_url, api_key } => {
            assert_eq!(name, "Shop");
            assert_eq!(root_url, "https://shop.example");
            assert_eq!(api_key, "k");
        }
        _ => panic!("expected the service"),
    }
}

#[test]
fn the_fields_of_a_service_form_a_cycle() {
    let f = FormField::Name;
    assert_eq!(f.next(), FormField::RootUrl);
    assert_eq!(f.next().next(), FormField::ApiKey);
    assert_eq!(f.next().next().next(), f);
    assert_eq!(f.next().prev(), f);
}

#[test]
fn every_key_is_offered_once() {
    let keys: Vec<String> = ["rent", "food", "fees"].iter().map(|k| k.to_string()).collect();
    let accounts = vec![account("A", true), account("B", false), account("C", true)];
    let mut editor = MappingEditorState::new();
    editor.open(keys.clone(), accounts);
    for key in &keys {
        assert!(editor.visible);
        assert_eq!(editor.current_key(), Some(key.as_str()));
        assert_eq!(editor.filtered_indices, [0, 2]);
        assert_eq!(editor.selected_index, 0);
        editor.handle_key(KeyCode::Char('c'));
        assert_eq!(editor.filtered_indices, [2]);
        editor.advance_or_close();
    }
    assert!(!editor.visible);
    assert_eq!(editor.current_key(), None);
    editor.advance_or_close();
    assert!(!editor.visible);
    assert!(!StagedEventsView::default().mapping_editor.visible);
}

#[test]
fn closed_modals_are_not_drawn() {
    let theme = Theme::dark();
    let mut form = ServiceFormModal::new();
    assert!(form.draw(&theme).is_none());
    form.show();
    assert!(form.draw(&theme).is_some());
    let mut modal = SyncResultsModal::new();
    assert!(modal.is_drawable(5) && modal.draw(5, &theme).is_none());
    modal.visible = true;
    assert!(modal.is_drawable(5));
    let p = modal.draw(5, &theme).unwrap();
    assert_eq!(p.lines.items[0].items[0].text, "No events processed.");
}
