//! Cache-backed dependency registry: bootstrap from a local snapshot or the
//! embedded payload, gate it on the schema version, and install a single
//! background refresh.

pub mod commands;
pub mod data;
pub mod registry;
