//! Games of the desktop.

pub mod snake;
