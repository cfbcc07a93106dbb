//! Loaded configurations and what is made of them.

pub mod registry;

pub use registry::PluginRegistry;
