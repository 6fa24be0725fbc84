//! The register side of the two bus devices: which bytes to write and what
//! the bytes read mean. The bus itself is left to the caller.

pub mod mcp23017;
pub mod mcp3424;
