//! Decoder for the `edds` texture container: a DDS-derived format with a
//! fixed little-endian header, an optional extension block, and per-mip-level
//! payloads that are either stored raw or wrapped in a chunked LZ4 framing.
//!
//! The crate parses the container eagerly from an in-memory byte buffer and
//! either yields the full ordered sequence of decoded mip levels or fails
//! with an error naming the exact stage that rejected the input.

pub mod errors;
pub mod reader;
pub mod dds_header;
pub mod decode;
pub mod decomp;
pub mod edds;
