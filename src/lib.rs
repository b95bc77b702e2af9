//! Declarative configuration of version-manager plugins: the configuration
//! model, how a plugin's source and version are resolved, the per-plugin
//! reconciliation driver, and the listings shown to the user.

pub mod text;
pub mod source;
pub mod version;
pub mod config;
pub mod install;
pub mod list;
pub mod sync;
pub mod laws;
