//! Strongly-typed, prefix-tagged string identifiers.
//!
//! An identifier kind fixes a set of accepted string prefixes (or declares
//! itself freeform, or nullable with the empty string as its absent value).
//! Parsing validates a raw string against that set; equality, ordering and
//! the wire form are all derived from the one underlying string payload.
//! Unions of several identifier kinds dispatch a raw string to the variant
//! whose accepted prefixes match its leading `..._` segment.

pub mod error;
pub mod kinds;
pub mod scalar;
pub mod text;
pub mod unions;
