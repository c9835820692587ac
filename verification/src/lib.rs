//! The verified core of frork, a configuration management tool driven by
//! Fennel scripts: path expansion, assertion decisions and reporting.
pub mod bindings;
pub mod text;
pub mod utils;
pub mod error;
pub mod status;
pub mod protocol;
pub mod assertions;
pub mod registry;
pub mod report;
pub mod runtime;
pub mod lenient;
