//! The decisions of a launcher's self-updater: which update to offer, where its
//! package is downloaded from, whether the downloaded bytes may be kept, and how
//! a Debian package is installed.
//!
//! Nothing here performs I/O. The application fetches, streams, writes and runs;
//! it hands what came back to this crate and does what the crate answers.

pub mod catalog;
pub mod check;
pub mod download;
pub mod endpoint;
pub mod enqueue;
pub mod failure;
pub mod install;
pub mod pending;
pub mod platform;
pub mod request;
pub mod text;
