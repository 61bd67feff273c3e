//! A small task tracker: the items, the rules of the interactive list
//! editor, and the command-line operations on a list of items.

pub mod commands;
pub mod database;
pub mod dates;
pub mod editor;
pub mod item;
pub mod laws;
pub mod report;
pub mod screen;
pub mod text;
pub mod upcoming;
