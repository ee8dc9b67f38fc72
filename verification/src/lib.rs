//! A small verified core for a real-time renderer.
//!
//! The crate holds the decisions behind shader programs, textures, asset
//! caching and frame input, each with a contract and its proof. It never
//! calls the graphics driver, opens a window or reads a file. Instead:
//!
//! - every operation that changes driver state returns the requests to carry
//!   out, as [`command::GlCommand`] values, and records their effect in a
//!   [`context::GpuContext`] that the caller threads through;
//! - where the driver has to answer first (a compile or link status, a
//!   uniform location, a fresh texture handle), the operation is split in
//!   two, and the host passes the answer to the second half;
//! - decoded pictures, glyph bitmaps and window events come in as plain
//!   records.
//!
//! The numeric codes of the driver interface are read from the `gl` crate and
//! pictures are flipped by the `image` crate; what the crate assumes of the two
//! is stated on the few functions that call them, in [`codes`] and [`pixels`].

pub mod asset;
pub mod codes;
pub mod command;
pub mod context;
pub mod input;
pub mod pixels;
pub mod program;
pub mod shader;
pub mod table;
pub mod texture;
