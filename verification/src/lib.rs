//! Room-gravity parameter selection: the text and counting logic of the
//! library, with its contracts.

pub mod cluster;
pub mod progressive;
pub mod prompt;
pub mod style;
pub mod style_laws;
pub mod text;
pub mod usage;
