//! The interactive side: menu, editor state and what each panel shows.

pub mod app;
pub mod components;
pub mod layout;
pub mod main_menu;
pub mod themes;
