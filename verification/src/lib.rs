//! Battery monitoring core: classifies per-battery status text, parses energy
//! readings, combines several batteries into one logical power source, and
//! decides which desktop notifications a poll cycle must emit.
//!
//! Reading the `/sys` attribute files and delivering notifications are left to
//! the surrounding program; this crate holds the verified decision logic.

pub mod aggregate;
pub mod cycle;
pub mod reader;
pub mod text;
