//! State models for a small set of user-interface components.
//!
//! Each component of the interface keeps a little state and changes it when an
//! event arrives: a click, a keystroke, a submitted form. This crate holds that
//! state and those changes as plain values with proved contracts. A rendering
//! layer owns one value per component, hands it each event and draws what the
//! value exposes.

pub mod counter;
pub mod counter_list;
pub mod database;
pub mod forms;
