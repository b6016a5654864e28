//! An evaluation harness for Rust code that language models write.

pub mod db;
pub mod decode;
pub mod evaluator;
pub mod examples;
pub mod laws;
pub mod lm_studio;
pub mod number;
pub mod outside;
pub mod project;
pub mod ratio;
pub mod report;
pub mod run;
pub mod task;
pub mod text;
pub mod text_laws;
pub mod toolchain;
