//! A small bridge between a host application and the web: it builds the
//! pre-filled bug-report link of the project's issue tracker, brings URL text
//! into canonical form, and decides what a browser launch amounts to.
//!
//! Every entry point takes and returns owned text; nothing is shared with the
//! caller and nothing is kept between calls.

pub mod anatomy;
pub mod canonical;
pub mod error;
pub mod form;
pub mod issue;
pub mod launch;
pub mod parser;

pub use crate::canonical::encode_url;
pub use crate::error::BridgeError;
pub use crate::issue::github_issue_url;
pub use crate::launch::open_url_outcome;
pub use crate::launch::Dispatch;
