//! A decoder from the SPIR-V binary form of a shader module to an in-memory
//! intermediate representation.
//!
//! `Parser::parse` and `parse_u8_slice` decode a module. What they return is
//! stated over a model: `parse::decode` says, for any sequence of words, which
//! module it describes or why it describes none, instruction by instruction,
//! and the code is proved to return just that. `laws` holds what follows for
//! every module.

pub mod block;
pub mod decoration;
pub mod error;
pub mod function;
pub mod ir;
pub mod laws;
pub mod model;
pub mod parse;
pub mod preamble;
pub mod reader;
pub mod state;
pub mod types;
pub mod values;
pub mod words;

pub use error::{Error, ModuleState};
pub use ir::Module;
pub use parse::parse_u8_slice;
pub use state::Parser;
