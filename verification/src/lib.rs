//! Translation of C macro definitions into Rust items, for use with generated C bindings.
pub mod ast;
pub mod callbacks;
pub mod completion;
pub mod laws;
pub mod literal;
pub mod model;
pub mod name_map;
pub mod text;
pub mod translate;
