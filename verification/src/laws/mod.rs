//! What the library promises of its functions, said of their inputs and results.

pub mod client;
pub mod database;
pub mod evaluator;
pub mod examples;
pub mod extraction;
pub mod project;
pub mod report;
pub mod run;
pub mod task;
pub mod text;
pub mod toolchain;
