//! Routing policy: the named sets, the policies built from them, and the
//! clients that are kept up to date on both.

pub mod cascade;
pub mod commit;
pub mod commit_laws;
pub mod delivery_laws;
pub mod inst;
pub mod laws;
pub mod list;
pub mod message;
pub mod request_laws;
pub mod resolution_laws;
pub mod sets;
pub mod syncer;
pub mod view_laws;
pub mod watch;
