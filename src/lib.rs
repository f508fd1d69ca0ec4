//! Reads the current location out of a running game's memory: finds a record by
//! its signature, decodes it from a fixed little-endian layout and turns its
//! location code into a status line.

pub mod layout;
pub mod types;
pub mod records;
pub mod presence;
pub mod locator;
pub mod memory;
pub mod introspect;
pub mod cycle;
