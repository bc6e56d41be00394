//! A directory tree packed into one self-mounting executable: a launcher in
//! front of a zip archive. This library holds the logic of the launcher's
//! side, and what the packer decides.
//!
//! - [`path`]: archive paths as bytes, their parents and file names.
//! - [`archive`]: the zip archive as a list of members.
//! - [`clock`]: from a member's calendar time to a point in time.
//! - [`node`]: the record of one inode.
//! - [`namespace`]: which node each inode and each path names, and what a
//!   directory lists.
//! - [`reply`]: the answers to requests.
//! - [`fs`]: the file system with its caches, and its four operations.
//! - [`event`]: the readiness latch.
//! - [`launcher`]: the launcher's course from start to exit.
//! - [`appimage`] and [`util`]: member names, modes and update information
//!   of an image, and the order in which a directory tree is walked.

pub mod appimage;
pub mod archive;
pub mod clock;
pub mod event;
pub mod fs;
pub mod launcher;
pub mod namespace;
pub mod node;
pub mod path;
pub mod reply;
pub mod util;
