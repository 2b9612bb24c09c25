//! Locates a running game process, waits until it is ready, and loads
//! libraries into it through a remote thread.
//!
//! Everything that decides lives here and is verified: the watch session
//! state machine, the remote injection sequence, the matching rules of the
//! process, window and module scans, and the release provisioning plan. The
//! operating-system calls that carry these decisions out stand outside.

pub mod text;
pub mod scan;
pub mod inject;
pub mod provision;
pub mod watch;
