//! A minimal actor/server framework: isolated stateful workers that
//! communicate through asynchronous messages, a typed client-side
//! connection handle, and a process registry mapping names to mailboxes.
//!
//! The crate verifies the framework's decision logic: message
//! classification, directive application, lifecycle bookkeeping, the
//! mailbox's ordering and failure semantics, and the registry's map
//! semantics. The asynchronous transport (bounded channels and one-shot
//! reply channels) is called through a small set of trusted wrappers.

pub mod cache;
pub mod callback;
pub mod channel;
pub mod connection;
pub mod mailbox;
pub mod message;
pub mod process;
pub mod registry;
pub mod url;
