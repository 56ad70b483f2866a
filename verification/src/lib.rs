//! Inbox summaries from IMAP accounts.
//!
//! The library holds what is decided: the configuration model and the rules
//! that resolve a port and credentials (`settings`), the sources of the
//! settings and how one overrides another (`source`), the state machine that
//! takes one account from dial to logout (`session`), the text that stands
//! for fetched envelopes (`envelope`), the three kinds of failure (`error`),
//! and what is reported of each account and when a run ends (`run`). It
//! opens no connection and reads no file: its callers do, and hand it plain
//! values.

pub mod envelope;
pub mod error;
pub mod run;
pub mod session;
pub mod settings;
pub mod source;
pub mod text;
