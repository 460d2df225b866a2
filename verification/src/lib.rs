//! A client library for disposable email addresses: it generates a random
//! address at one of the fixed relay domains and fetches the inbox for such an
//! address from the relay's HTTP API, parsing each message into a structured
//! record.

pub mod address;
pub mod client;
pub mod date;
pub mod digits;
pub mod error;
pub mod json;
pub mod message;

pub use address::EmailAddr;
pub use client::{TempEmail, Transport, API_URL};
pub use date::DateTime;
pub use error::MailError;
pub use message::Email;
