//! An assembler and an execution engine for a small teaching processor with
//! 256 cells of memory, an accumulator and an index register.

pub mod assembler;
pub mod engine;
pub mod examples;
pub mod isa;
pub mod laws;
pub mod loader;
pub mod render;
pub mod semantics;
pub mod symbols;
pub mod syntax;
pub mod text;

pub use assembler::{assemble, symbol_table_of};
pub use engine::{Emulator, Snapshot};
pub use isa::{
    AssemblerError, AssemblerErrorView, ExecutionInfo, ExecutionState, MemoryData, Opcode,
    Operand, Register,
};
pub use semantics::{Flags, MachineState, StepReport};
pub use symbols::SymbolTable;
