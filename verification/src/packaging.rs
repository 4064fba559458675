//! Building a package: two gzip-compressed tar segments inside an `ar`
//! container.

pub mod archive;
pub mod control;
pub mod data;
pub mod layout;
pub mod package;
pub mod segment;
pub mod tree;
