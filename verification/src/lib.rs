//! An inspector for wiki text. A parsed page is laid out as a tree of node
//! boxes: one box for every node of the syntax tree, each with a header that
//! names the kind of the node and its span in the source text, followed by
//! the attributes of the node and the boxes of the nodes below it. Warnings of
//! the parser come first, each in a box of its own.
//!
//! The library computes that tree as a value and states, for every function,
//! which tree it builds. Running the parser and bringing the tree into a
//! document are left to the program around it.
//!
//! - [`ast`]: the syntax tree that is read.
//! - [`dom`]: the presentation tree that is built.
//! - [`scalar`]: how scalar values and source spans are shown.
//! - [`rendering`]: the tree that a parse gives, and what holds of it.
//! - [`parse`]: the walker that builds it.
//! - [`shell`]: the live loop of the page.

pub mod ast;
pub mod dom;
pub mod parse;
pub mod rendering;
pub mod scalar;
pub mod shell;
