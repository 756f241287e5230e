//! Validation of the session identity carried by a request's cookies.
//!
//! A request is authenticated by four cookie values: `id`, `email`,
//! `auth_key` and `time_stamp`. [`session::extract`] checks first that all
//! four are present and then that each parses into its type, and yields
//! either a fully populated [`session::Session`] or one of two errors.
pub mod clock;
pub mod decimal;
pub mod session;

pub use clock::{millis_since_epoch, now};
pub use decimal::parse_unsigned;
pub use session::{extract, session, ExtractionError, Session, SessionCookies};
