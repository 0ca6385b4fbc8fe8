//! The parts of the application: the text fields, the graph, the captions,
//! and the focus that says which of them is active.

pub mod domain;
pub mod expr;
pub mod focus;
pub mod graph;
pub mod help;
pub mod home;
pub mod input;
pub mod title;
