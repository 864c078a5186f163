//! A client-side store of trailer records kept in step with a server: a snapshot
//! pull fills it, a push channel carries `hot_trailer` events that are reconciled
//! into it by assignment, and confirmed writes are broadcast while the channel is open.

pub mod channel;
pub mod json;
pub mod record;
pub mod store;
