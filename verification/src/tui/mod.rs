pub mod paint;
pub mod theme;
pub mod widgets;
pub mod views;
pub mod chart;
pub mod choice_laws;
pub mod imports;
pub mod app;
pub mod app_keys;
pub mod dispatch;
pub mod session;
pub mod steps;
pub mod loading;
pub mod outcomes;
pub mod plaid_actions;
pub mod screen;
