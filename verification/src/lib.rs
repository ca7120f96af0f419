//! Measures how well Zstandard, gzip and Brotli shrink certificate files, and
//! lays the measurements out as fixed-width text tables.
//!
//! The crate holds the decisions and the arithmetic of a benchmark run; reading
//! files, printing and serialising are left to the caller.

pub mod bench;
pub mod codec;
pub mod messages;
pub mod record;
pub mod report;
pub mod scan;
pub mod text;
