pub mod alu;
pub mod cpu;
pub mod executor;
pub mod instruction;
pub mod laws;
pub mod memory;
pub mod operand;
pub mod operation;
pub mod registers;
pub mod semantics;
pub mod utils;

pub use cpu::Intel8080;
pub use cpu::CYCLE_TIME_NANO_SECS;
pub use instruction::Instruction;
pub use memory::Memory;
pub use memory::MemoryAccess;
