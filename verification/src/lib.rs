//! An in-memory task tracker: an ordered list of tasks, each with a
//! description, a priority from 1 to 5 and a completion flag, together with
//! the text handling and the menu dialogue of an interactive session.

pub mod error;
pub mod menu;
pub mod model;
pub mod number;
pub mod render;
pub mod session;
pub mod store;
pub mod task;
pub mod text;
