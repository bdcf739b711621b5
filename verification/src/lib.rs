//! Conversion of terminal colour schemes between configuration formats.

pub mod alacritty;
pub mod convert;
pub mod format;
pub mod hex;
pub mod inifile;
pub mod json;
pub mod scheme;
pub mod text;
pub mod wt;
pub mod xshell;
pub mod yaml;

pub use convert::{convert, convert_text};
pub use format::SchemeFormat;
pub use scheme::{ColorScheme, ColorSchemes, SchemeError};
