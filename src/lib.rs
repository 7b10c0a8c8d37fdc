//! The model behind a visual editor of type aliases: type expressions and
//! their Rust source text, block trees with open slots, the type library
//! palette, and the editor's save, preview and placement decisions.

pub mod ast;
pub mod block;
pub mod text_order;
pub mod palette;
pub mod editor;
