//! Locate a command on the search path, as the `which` utility does: split
//! the search-path variable into directories, probe each directory for the
//! named program in order, and report the first hit or a miss per name.

pub mod resolver;
pub mod search_path;
pub mod shell;
