//! Renders a math expression to an SVG image by driving the typst compiler:
//! the library wraps the expression in a minimal document template, provides
//! an in-memory source and font registry to the compiler, and turns the
//! compiler's outcome into either the serialized first page or one joined
//! error string.

pub mod engine;
pub mod fonts;
pub mod render;
pub mod template;
pub mod world;
