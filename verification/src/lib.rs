//! Verified core of a bridge between a host process and an embedded script engine.

pub mod bridge;
pub mod call;
pub mod console;
pub mod fetch;
pub mod host;
pub mod location;
pub mod manifest;
pub mod marshal;
pub mod message;
pub mod module_type;
pub mod paths;
pub mod registration;
pub mod resolver;
pub mod text;
