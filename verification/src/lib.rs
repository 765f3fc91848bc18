//! The bridge between a host and an embedded script interpreter: captured
//! output, module name resolution, value marshalling and the host state calls.
pub mod codec;
pub mod output;
pub mod release;
pub mod resolver;
pub mod run;
pub mod scope;
pub mod state;
pub mod text;
pub mod value;
