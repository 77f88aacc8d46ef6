//! Verified core of the custom ACP agent store.
//!
//! Rows of the `custom_agent` table are the persistent form of a
//! [`agent::CustomAgentDef`]. This crate holds the decisions that sit between
//! the database and the launch registry: turning a stored row back into a
//! definition, validating and normalising a definition before it is saved,
//! choosing between an in-place update and an insert, rebuilding the launch
//! registry, and the step-by-step plan that seeds the bundled `sahaa` agent.
//! The database access itself is done by the caller, which hands the results
//! of each query to these functions.

pub mod agent;
pub mod laws;
pub mod registry;
pub mod row;
pub mod sahaa_icon;
pub mod seed;
pub mod service;
pub mod text;
