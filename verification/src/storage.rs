//! What a container file holds on disk.

pub mod header;

pub use header::Header;
