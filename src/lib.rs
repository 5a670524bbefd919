//! A CHIP-8 virtual machine: machine state, instruction decoding, one handler
//! per instruction, and a fetch-decode-execute loop, each step stated over a
//! mathematical model of the machine.

pub mod handlers;
pub mod instruction;
pub mod laws;
pub mod machine;
pub mod run;

pub use instruction::Instruction;
pub use machine::{Chip8, Chip8Error, MachineState};
pub use run::{RunStatus, StepStatus};
