//! Bootstrap layer of an embedded data node: where its files live, how its
//! identity is kept, how its configuration is layered, and how the host waits
//! for it to become ready.

pub mod config;
pub mod env;
pub mod identity;
pub mod manifest;
pub mod paths;
pub mod startup;
pub mod toml_doc;
