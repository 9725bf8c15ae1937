//! The decisions of the Helium browser updater for Windows: reading versions and
//! releases, choosing installers, deciding whether an update is due, what the
//! window shows, and how the background and manual runs proceed.
pub mod text;
pub mod versioning;
pub mod powershell;
pub mod helium;
pub mod github;
pub mod scheduler;
pub mod logging;
pub mod install;
pub mod service;
pub mod runs;
pub mod icon;
