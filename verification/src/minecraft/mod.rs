//! Mojang's version metadata: the global manifest and each version's detail.

pub mod manifest;
pub mod version;
