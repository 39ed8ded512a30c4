//! Ingestion engine for machine-generated API-documentation XML.
//!
//! The library builds a normalized, cross-referenced registry of documented
//! entities from an element tree: a declaration pass reads the index document
//! and allocates a default entity for every identifier, and a definition pass
//! fills each entity in from its own document.  Documentation markup is
//! flattened into a structured comment, and raw signature text is rewritten
//! (redundant `const` stripping, multi-line re-alignment, `noexcept`
//! collapsing).  Reading files from disk and rendering the finished registry
//! are left to the surrounding application.

pub mod comment;
pub mod declare;
pub mod define;
pub mod idmap;
pub mod laws;
pub mod model;
pub mod render;
pub mod signature;
pub mod text;
pub mod xml;
