//! Sorting media files into directories named after the date they were taken.
//!
//! The library decides; it never touches the file system. A caller finds the
//! files, reads what the library asks for, and carries out the moves that the
//! library hands back.

pub mod batch;
pub mod metadata;
pub mod paths;
pub mod placement;
pub mod resolvers;
pub mod strict;
pub mod template;
pub mod timestamp;
pub mod validation;
