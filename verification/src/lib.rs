//! Generates Rust type declarations from a MySQL schema's metadata.
//!
//! The library holds the pure generation pipeline: classifying raw column
//! type descriptors into canonical Rust scalar types, applying
//! configuration-driven overrides, rendering field and struct declarations,
//! selecting tables, and assembling the final source text. Database
//! introspection and configuration loading are left to the surrounding
//! application, which hands the library plain values.

pub mod config;
pub mod database;
pub mod fmts;
pub mod text;
pub mod types;

pub use types::LiteralRustType;
