//! Language identification and code-lens line classification for source files.
//!
//! A file path names a `LapceLanguage`; the language selects a tree-sitter
//! grammar, a highlight query and a pair of node-kind lists, and those lists
//! drive the walk over a syntax tree that picks out the structurally
//! significant lines of the file.
pub mod text;
pub mod code_lens;
pub mod grammar;
pub mod language;
