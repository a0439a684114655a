//! Status-line snippets: line/field scanners for the text that system
//! utilities print, typed readings with value formatters, and a Pango-style
//! markup renderer that wraps fragments in styled spans.

pub mod battery;
pub mod brightness;
pub mod clock;
pub mod errors;
pub mod markup;
pub mod memory;
pub mod num;
pub mod text;
pub mod theme;
pub mod virsh;
pub mod volume;
