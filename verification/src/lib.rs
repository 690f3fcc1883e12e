//! Decoders for the fixed-size header records of `.mmap` and `.mmtile`
//! navigation-mesh files.
//!
//! Each decoder takes a byte buffer and gives back either the record that the
//! first bytes of the buffer hold, or a [`error::DecodeError`] that says why
//! the buffer was turned down. All integers are little-endian; 32-bit floats
//! are kept as their IEEE-754 bit patterns.
pub mod error;
pub mod mmap;
pub mod mmtile;
pub mod wire;
