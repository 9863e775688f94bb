//! Codec for the PostGIS EWKB wire format: OGC Well-Known Binary with an
//! optional SRID (spatial reference identifier) tag on the top-level geometry.
//!
//! Coordinates are carried as the 64 bits of their IEEE-754 representation
//! (`u64`), so the codec itself is pure byte and integer logic; callers that
//! want `f64` views convert with `f64::to_bits` / `f64::from_bits`.

pub mod error;
pub mod ewkb;
pub mod types;
