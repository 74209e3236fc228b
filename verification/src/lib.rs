//! A toolkit-independent model of the settings panel of one virtual machine.
//!
//! The panel shows a machine's name, status, details and trust level, keeps
//! the list of live links between a machine record and its display elements,
//! and turns clicks on its action menu into typed notifications.

pub mod binding;
pub mod display;
pub mod events;
pub mod labels;
pub mod laws;
pub mod panel;
pub mod record;
