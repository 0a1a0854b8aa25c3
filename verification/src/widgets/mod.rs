//! Widget logic
pub mod checkbox;
pub mod checkbox_group;
pub mod collapsible;
pub mod color_swatch;
pub mod confirmation_dialog;
pub mod cursor_blink;
pub mod directory_picker;
pub mod dropdown;
pub mod editing_core;
pub mod file_picker;
pub mod focus_navigation;
pub mod password_input;
pub mod path_display;
pub mod radio_group;
pub mod repeatable_directory_picker;
pub mod repeatable_file_picker;
pub mod repeatable_text_input;
pub mod segmented_control;
pub mod selection;
pub mod sidebar_nav;
pub mod sensitive_string;

pub use cursor_blink::CursorBlink;
pub use directory_picker::{validate_directory_path, DirectoryPickerValidation};
pub use editing_core::{ContentStorage, EditingCore};
pub use file_picker::{validate_file_path, FileMode, FilePickerValidation, MissingDirectories};
pub use sensitive_string::SensitiveString;
pub use selection::StringItem;
