//! Packaging of applications for a webOS device and the transfer of files to it.
//!
//! `packaging` builds the two segments of a package and appends them to an
//! `ar` archive; `transfer` decides, step by step, what a session has to do to
//! create a directory on the device or to move or remove a file there;
//! `registry` decides what to do about the file of known devices when it
//! cannot be opened. `path` and `text` hold what these share.

pub mod packaging;
pub mod path;
pub mod registry;
pub mod text;
pub mod transfer;
