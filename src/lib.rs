//! A sandboxed file emitter: writes a text or base64 payload below a fixed
//! output root, refusing destinations that reach a parent directory.

pub mod args;
pub mod emitter;
pub mod error;
pub mod laws;
pub mod path;
pub mod payload;
