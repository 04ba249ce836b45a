//! Bootstrap logic for a desktop application shell.
//!
//! The library models the startup sequence of the application host: a
//! bootstrapper is assembled, the opener capability plugin is registered,
//! and a startup hook runs once over the host's window registry, asking the
//! window labeled "main" (if any) to take input focus and discarding the
//! host's answer. The platform shell that owns the real windows and the
//! blocking event loop lives outside the library and drives it with plain
//! values.

pub mod bootstrap;
pub mod registry;
pub mod window;
