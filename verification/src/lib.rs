//! An in-process session store: identifiers mapped to per-session key/value
//! state.
//!
//! [`AxumSessionStore`] is the table, [`AxumSessionData`] the payload of one
//! session, and [`AxumSession`] the handle through which a request reads and
//! writes its session. An operation takes the table by exclusive reference:
//! whoever shares a table between requests puts it behind a lock, and an
//! operation then runs as one step with respect to every other.
//!
//! The module [`laws`] states what holds of every table and session.

pub mod data;
pub mod id;
pub mod jar;
pub mod laws;
pub mod session;
pub mod store;

pub use data::AxumSessionData;
pub use data::SessionState;
pub use id::AxumSessionID;
pub use session::AxumSession;
pub use store::AxumSessionStore;
