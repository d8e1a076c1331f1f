//! Byte ranges in the sense of HTTP range requests: what a range means, how
//! many bytes it selects, how it is written, and where a reader starts.

pub mod bounds;
pub mod decimal;
pub mod laws;
pub mod range;

pub use range::{ByteRange, BYTES};
