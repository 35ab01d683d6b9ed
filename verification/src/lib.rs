//! Administrative user management against a remote identity/database platform.
//!
//! The library holds the decision logic of three orchestrators — user
//! creation, update and deletion — as verified state machines: each one maps
//! a state and the outcome of a remote call to the next state and the next
//! action.  An unverified shell performs the HTTP calls that the actions
//! describe and feeds the outcomes back in as events.

pub mod config;
pub mod create;
pub mod delete;
pub mod error;
pub mod laws;
pub mod protocol;
pub mod text;
pub mod update;
