//! Applications of the desktop.

pub mod calc;
