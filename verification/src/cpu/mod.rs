pub mod alu;
pub mod cpu;
pub mod gpu;
pub mod instruction;
pub mod memory_bus;
pub mod registers;

pub use cpu::CPU;
pub use instruction::{ArithmeticTarget, Instruction, JumpTest, StackTarget};
pub use memory_bus::MemoryBus;
pub use registers::Registers;
