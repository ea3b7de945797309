//! A minimal virtual CPU: a flat byte memory, a register file, and a
//! fetch-decode-execute cycle over fixed-width little-endian instruction words.

pub mod encoding;
pub mod machine;
pub mod driver;
pub mod laws;
