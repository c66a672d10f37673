//! A bridge between a native application and an analysis routine hosted in an
//! embedded foreign interpreter.
//!
//! The bridge prepares the interpreter's module search path, drives one
//! import/call/convert session at a time, and marshals the textual result of
//! the foreign call into typed records, mapping every failure class to a
//! single error representation.

pub mod errors;
pub mod invoke;
pub mod json;
pub mod marshal;
pub mod runtime;
