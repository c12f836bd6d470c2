//! The execution core of a Game Boy Advance: an ARM7TDMI interpreter
//! coupled to the console's memory-mapped address space.
//!
//! * [`system_memory`] is the byte-addressable bus and its model.
//! * [`arm_instructions`] decodes ARM opcodes and evaluates condition codes.
//! * [`cpu_state`] is the mathematical model of the processor: banked
//!   registers, status registers, the prefetch pipeline and the
//!   transitions between states, with the laws that hold of them.
//! * [`arm7tdmi`] is the executable processor, proved to follow the model.
//! * [`gba`] drives the processor for one frame's budget of cycles.

pub mod arm7tdmi;
pub mod arm_instructions;
pub mod cpu_state;
pub mod gba;
pub mod system_memory;
