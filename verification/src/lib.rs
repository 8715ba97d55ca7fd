//! Package identifiers, the registry of external functions, bounded
//! mailboxes and the reducer loop of the runtime, with their contracts.

pub mod channel;
pub mod mailbox;
pub mod pkgid;
pub mod reducer;
pub mod registry;
