//! The verified core of an interactive bill manager: a keyed store of named
//! bills, the numbered-menu selection, the amount-prompt decision, and the
//! session state machine that sequences prompt replies into store operations.

pub mod amount;
pub mod menu;
pub mod session;
pub mod store;
