//! Terminal rich text: portable colors with capability downgrade, styles that
//! render to ANSI escape sequences, and span-based styled text.
pub mod color;
pub mod digits;
pub mod style;
pub mod text;
