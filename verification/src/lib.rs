//! A declarative field-grouping compiler.
//!
//! Given a record whose fields carry structural type descriptors, and a set of
//! named group declarations (each with a target element type, an optional
//! wildcard-based implicit selection rule, and per-field override annotations
//! with casting decorators), this library resolves which fields belong to
//! which group, in what order and with what value transform, and validates the
//! whole configuration for conflicts before a code generator emits per-group
//! accessor routines.

pub mod emitter;
pub mod errors;
pub mod parse_decorator;
pub mod parse_gen_array;
pub mod parse_in_array;
pub mod resolver;
pub mod types;
pub mod utils;
