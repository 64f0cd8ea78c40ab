//! Persistence and lookup caching for amateur-radio net-control logs: a
//! record store of sessions, check-ins and traffic, a callsign cache, and
//! the steps of a cache-first directory lookup.

pub mod cache;
pub mod lookup;
pub mod models;
pub mod store;
pub mod table;

pub use cache::CallsignCache;
pub use lookup::{DirectoryRecord, LookupStep};
pub use models::{CallsignLookupResult, LogEntry, NetSession, Participant, SessionData};
pub use store::{RecordStore, StoreError};
