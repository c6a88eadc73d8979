//! A virtual machine for an 8-bit processor with 16-bit instruction words:
//! a bounded call stack, an instruction decoder and a fetch-decode-execute
//! engine, each specified over a mathematical model and proved against it.
pub mod instruction;
pub mod machine;
pub mod cpu;
pub mod stack;
