//! Record-level decoding of wire packs: the binary stream that carries
//! revision history and content deltas for tree manifests or file contents.
//!
//! A decoder looks at the front of an accumulating byte buffer and either
//! reports that the record is not complete yet, leaving the buffer as it
//! is, or removes exactly one record and returns it as a typed entry.

pub mod buffer;
pub mod delta;
pub mod hash;
pub mod laws;
pub mod path;
pub mod wirepack;
