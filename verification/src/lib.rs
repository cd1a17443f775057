//! Deduplication of binary mesh assets in a scene graph.
//!
//! The crate decodes a custom little-endian binary mesh format, computes an
//! approximate geometric fingerprint for each decoded mesh, and rewrites
//! scene objects that carry duplicate meshes so that they all reference one
//! canonical asset.  Floating-point values never appear in the verified
//! code: every IEEE-754 single-precision value is carried as its 32-bit
//! pattern (`u32`), and the few arithmetic steps the fingerprint needs are
//! performed behind trusted wrappers.

pub mod asset_downloader;
pub mod cframe;
pub mod engine;
pub mod fbits;
pub mod mesh_reader;
