//! A one-line status bar for a command-line coding assistant, and the model
//! behind the editor that configures it.
//!
//! The collectors in [`segments`] turn a snapshot of the ambient input into
//! small results, [`statusline`] assembles the results of the enabled
//! segments into one line, and [`ui`] holds the menu, the editor and the
//! panels as state machines and as the styled text they show. All of them
//! share the configuration model of [`config`].

pub mod api;
pub mod config;
pub mod fixed;
pub mod segments;
pub mod statusline;
pub mod text;
pub mod ui;
