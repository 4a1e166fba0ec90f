//! The decisions behind a small reactive web page: number input, click
//! counter, style toggles, name logging, loaders and to-do identifiers.

pub mod text;
pub mod number_input;
pub mod counter;
pub mod styles;
pub mod name_log;
pub mod loading;
pub mod todo;
