//! A small client/server utility core: a binary wire protocol for triggering
//! IP-renewal actions on a router-controlling server and for broadcasting
//! renewal events to multicast listeners.

pub mod notifier;
pub mod protocol;
pub mod renewer;
pub mod session;
