//! The file header of the scrol database container and the rules that gate
//! access to a container file behind a check of that header.

pub mod db;
pub mod error;
pub mod storage;
pub mod text;

pub use db::Database;
pub use error::Error;
pub use storage::Header;
