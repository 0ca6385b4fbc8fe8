//! Plots a one-variable expression over an integer domain.
//!
//! The crate holds the evaluation pipeline (expression compilation, domain
//! parsing, sampling, axis bounds) and the state machines that decide when
//! the pipeline runs: [`session`], with its four screens, and [`app`], a
//! round of pages. Terminal handling and drawing are left to the program
//! that embeds the crate, and so is the arithmetic: the crate says at
//! which integer it wants the value of the expression, and is handed the
//! value.
//!
//! Real numbers are carried as IEEE 754 binary64 bit patterns in `u64`
//! values; see [`binary64`].

pub mod app;
pub mod binary64;
pub mod bounds;
pub mod components;
pub mod error;
pub mod expression;
pub mod interval;
pub mod key;
pub mod sampler;
pub mod session;
pub mod text;
pub mod ui;
