//! Reusable widget logic for desktop applications: themes, colours, paths and
//! the text editing engine behind text inputs.
pub mod theme;
pub mod utils;
pub mod widgets;
