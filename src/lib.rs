//! A small stack-based bytecode interpreter: a decoder from program words to
//! instructions, an operand stack with call frames, and a fetch-execute loop,
//! each with a contract over a mathematical model of the machine.
pub mod instructions;
pub mod laws;
pub mod loader;
pub mod stack;
pub mod vm;
