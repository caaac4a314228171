//! An interactive terminal directory browser: ranking of directory entries
//! against a typed query, fixed-width rendering, metadata normalisation and
//! the key-driven session state machine.

pub mod text;
pub mod fmt;
pub mod clock;
pub mod item;
pub mod rank;
pub mod cli;
pub mod render;
pub mod os_generic;
