//! Rust code for the services of a `.proto` file.

pub mod files;
pub mod generator;
pub mod render;
pub mod service;
pub mod syntax;
pub mod tokens;

pub use files::{
    compile_protos, configure, outputs, Builder, CompilePlan, Error, GeneratedFiles, Options, Output,
};
pub use generator::TrilliumServiceGenerator;
pub use service::{Method, Service, Shape};
