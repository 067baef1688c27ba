//! A compile-time generation-strategy engine for structured data types.
//!
//! Given a description of one field of a record (its optional name, its
//! declared type, and a list of customization directives), the engine
//! resolves which value-production strategy applies and emits a code
//! fragment producing a structurally valid pseudo-random value of that
//! field's type.  Fields that cannot be generated automatically are
//! delegated to a caller-supplied capability interface whose required
//! methods are accumulated per owning type.

pub mod capability;
pub mod classify;
pub mod directive;
pub mod error;
pub mod fragment;
pub mod resolve;
pub mod text;
