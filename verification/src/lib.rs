//! Watches Secret-like objects and checks the YAML and JSON payloads they carry.
//!
//! The crate holds the decisions of the watcher: which payloads are looked at,
//! what counts as a well-formed payload, what is logged and notified, and how the
//! watch loop moves its resource-version cursor across stream closures. The
//! program around it performs the cluster calls, the HTTP delivery and the
//! printing, and feeds what it observed back in as plain values.

pub mod inspect;
pub mod logging;
pub mod notify;
pub mod secret;
pub mod validate;
pub mod watch;
