//! The verified core of the TitaniumOS terminal desktop: the snake game,
//! the calculator, the desktop's tab, console and settings state machine,
//! and the text that each screen shows.

pub mod apps;
pub mod desktop;
pub mod games;
pub mod input;
pub mod text;
