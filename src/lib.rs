//! A CHIP-8 virtual machine core: machine state, instruction decoding,
//! instruction execution and the driver-loop state machine.

pub mod decode;
pub mod driver;
pub mod error;
pub mod execute;
pub mod laws;
pub mod opcode;
pub mod state;
pub mod util;
