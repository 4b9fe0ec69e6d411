//! Discovery of a Steam installation's per-user data: where the user folders
//! live, which of them already hold a shortcuts file, what that file contains,
//! and which images sit in a user's grid folder.
//!
//! The library never touches the disk or the environment itself. Callers probe
//! the file system, hand the findings in as plain values, and get back what to
//! look at next or the finished result.

pub mod paths;
pub mod errors;
pub mod settings;
pub mod users;
pub mod shortcuts;
pub mod images;
