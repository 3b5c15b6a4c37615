//! Community training-event coordination: a registry of game accounts, a
//! catalog of lifecycle-stated trainings, a signup ledger, a per-user
//! conversation lock with an interactive role-selection protocol, and a
//! signup-board cache that mirrors trainings into dated channels.

pub mod board;
pub mod conversation;
pub mod flows;
pub mod models;
pub mod selection;
