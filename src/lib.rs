//! Status reporting for a host-loaded system-information plugin.
//!
//! The plugin samples machine metrics outside this library; everything that
//! decides what is reported and how it is written down lives here: the
//! human-readable status block, the topic-qualified JSON records pushed to the
//! host, the routing of host actions, and the CPU temperature pick.

pub mod dispatch;
pub mod report;
pub mod sensor;
pub mod status;
pub mod text;

pub use dispatch::Plugin;
