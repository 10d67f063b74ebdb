//! Columnar arrays with pluggable physical encodings, and the binary-view
//! encoding for variable-length strings and bytes.
//!
//! Every array is an immutable, typed, lengthed value. Each operation on an
//! array is described by a specification function over its logical content, and
//! the executable code is proved against it.
pub mod array;
pub mod arrow;
pub mod buffer;
pub mod compute;
pub mod context;
pub mod dtype;
pub mod encoding;
pub mod error;
pub mod projection;
pub mod scalar;
pub mod validity;
