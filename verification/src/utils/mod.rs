//! Utility modules
pub mod color;
pub mod path;
pub mod text;

pub use color::{named_color_to_rgb, parse_color, parse_color_alpha, Rgb, Rgba};
pub use path::PathInfo;
