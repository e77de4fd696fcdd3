//! Core logic of the Exalta launcher for Realm of the Mad God Exalt: request
//! parameters and response checks for the account service, download
//! bookkeeping, launch arguments, and the launcher's small state machines.

pub mod text;
pub mod client;
pub mod launcher;
