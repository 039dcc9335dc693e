//! Configuration schema of a data-pipeline engine: a YAML document is parsed
//! into a plain node tree, then decoded and validated into typed settings.

pub mod node;
pub mod error;
pub mod types;
pub mod fields;
pub mod decode;
pub mod syntax;
pub mod laws;
pub mod encode;
pub mod message;
