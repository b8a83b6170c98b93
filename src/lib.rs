//! Typed access to a SPIR-V reflection and cross-compilation engine.
//!
//! The engine answers every request with a status code and, on success,
//! raw data: byte strings, engine enumerants and arrays of records. This
//! library turns those answers into typed results and typed failures.

pub mod error;
pub mod spirv;
pub mod text;
pub mod reflect;
