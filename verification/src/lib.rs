//! The terminal interface of Accountir, an event-sourced double-entry
//! accounting system: screens, forms, importers and reports as verified
//! state machines over plain values.

pub mod text;
pub mod input;
pub mod tui;
pub mod money;
pub mod date;
pub mod lists;
pub mod selection;
pub mod collections;
pub mod domain;
pub mod events;
pub mod queries;
pub mod json;
