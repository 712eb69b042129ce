//! Decoding of surface-mount capacitor part numbers into typed records,
//! and rendering of those records as text.

pub mod capacitors;
pub mod murata;
pub mod parts;
pub mod samsung;
pub mod text;
