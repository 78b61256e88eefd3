//! The records that the controller keeps and shows.

pub mod commit_info;
pub mod diff_line;
pub mod status_info;
