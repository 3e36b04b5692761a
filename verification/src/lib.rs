//! Publishing a nested configuration document as flat keys of a key-value store.

pub mod codec;
pub mod config;
pub mod flatten;
pub mod json;
pub mod publish;
pub mod target;
pub mod text;
