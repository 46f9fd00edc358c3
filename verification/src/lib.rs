//! Instruction-level model of an 8-bit microprocessor core.
//!
//! The machine is a [`processor::Processor`]: three registers, a stack
//! pointer, a program counter, a packed status register and a flat memory of
//! 65536 bytes. It is driven one fetch-decode-execute cycle at a time, or run
//! until a break instruction halts it or a fault ends the run.
//!
//! Every contract speaks of the machine through [`state::CpuState`], its
//! state as plain values, on which each instruction is a function from state
//! to state. What holds of every state is proved in [`laws`].

pub mod instructions;
pub mod laws;
pub mod memory;
pub mod opcode;
pub mod processor;
pub mod state;
pub mod status_flags;
pub mod table;
