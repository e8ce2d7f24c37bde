//! Execution core of an EVM-style bytecode interpreter: gas and memory
//! accounting, environment-reading and memory instructions, and an opcode
//! dispatch table in a static and a patchable form.

pub mod dyn_host;
pub mod gas;
pub mod host;
pub mod instructions;
pub mod interpreter;
pub mod laws;
pub mod opcode;
pub mod shared_memory;
pub mod stack;
pub mod word;

pub use word::Word;
