//! Best-effort extraction of structured-text entries from a ZIP-style
//! byte buffer: a linear scan over local file headers that decodes the
//! entries a configurable selection policy accepts and returns their
//! canonical textual form, tolerating truncated or malformed input.

pub mod decode;
pub mod scanner;
pub mod selector;
