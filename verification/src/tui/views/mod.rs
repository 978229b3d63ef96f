pub mod csv_import;
pub mod csv_import_draw;
pub mod bank_import;
pub mod bank_import_draw;
pub mod journal;
pub mod journal_draw;
pub mod report_laws;
pub mod report_tree;
pub mod reports;
pub mod entry_form;
pub mod account_form;
pub mod accounts;
pub mod event_log;
pub mod business_picker;
pub mod startup;
pub mod staged_events;
pub mod plaid_staged;
pub mod plaid_config;
pub mod plaid_link;
pub mod plaid;
pub mod services;
pub mod service_form;
pub mod aging;
pub mod payables;
pub mod receivables;
pub mod help;
pub mod welcome;
pub mod settings;
pub mod sync_results;
pub mod subscriptions;
pub mod entry_detail;
pub mod dashboard;
