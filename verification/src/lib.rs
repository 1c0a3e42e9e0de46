//! Session-only activity tracking and local call diagnostics.
pub mod text;
pub mod phone;
pub mod activity;
pub mod call_diagnostics;
pub mod panel;
pub mod tracker_laws;
pub mod number_laws;
