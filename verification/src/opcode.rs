//! Opcode dispatch: the 256-entry table in its static and patchable
//! representations.

pub mod tables;
