//! A software interpreter for an 8-bit microprocessor instruction set,
//! built to run unmodified original machine-code images. The register and
//! flag model, the full 256-entry opcode decode table, the arithmetic,
//! logical and branch semantics and the call/return/stack discipline are
//! all specified against one mathematical model of the machine state and
//! verified bit-exact against it.
mod cpu;

pub use cpu::laws;
pub use cpu::semantics;

pub use cpu::Cpu;
pub use cpu::LoadError;
pub use cpu::flags::Flags;
pub use cpu::memory::Memory;
pub use cpu::memory::MEMORY_SIZE;
pub use cpu::opcode::Opcode;
pub use cpu::pointers::Pointer;
pub use cpu::registers::Register;
