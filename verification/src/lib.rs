//! Build-time support for GLib resource bundles: manifest validation,
//! dependency declarations, packer invocation, and generation of the module
//! that embeds the packed bundle.

pub mod codegen;
pub mod compile;
pub mod decode;
pub mod error;
pub mod events;
pub mod grammar;
pub mod manifest;
pub mod reader;
pub mod stages;
pub mod text;
