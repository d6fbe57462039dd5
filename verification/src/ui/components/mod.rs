//! The panels of the editor, each computing the lines it shows.

pub mod help;
pub mod segment_list;
pub mod theme_selector;
