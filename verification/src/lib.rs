//! A verified CHIP-8 virtual machine core: an instruction decoder that maps
//! 16-bit words to typed operations, and a CPU that advances its architectural
//! state (registers, memory, call stack, timers) by one instruction per step.

pub mod cpu;
pub mod instruction;
