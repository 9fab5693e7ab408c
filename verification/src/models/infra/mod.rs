//! What the records need of the storage engine.

pub mod sqlite_types;
