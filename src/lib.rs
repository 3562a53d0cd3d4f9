//! A local credential store: entries keyed by service name, an ordered
//! database of them, the error taxonomy, and the rules of persistence.
pub mod clock;
pub mod database;
pub mod entry;
pub mod error;
pub mod storage;
pub mod text;
pub mod time;

pub use database::CredentialDatabase;
pub use entry::CredentialEntry;
pub use error::{CredentialError, CredentialResult};
pub use time::format_timestamp_local;
