//! A verified interpreter for the MOS 6502 processor variant used in the
//! Nintendo Entertainment System: registers, flags, the complete opcode set
//! (official and unofficial), cycle counting with page-cross penalties,
//! stack and interrupt discipline, and a nestest-format trace line builder.
pub mod bits;
pub mod bus;
pub mod cpu;
pub mod laws;
pub mod mask;
pub mod opcodes;
pub mod state;
pub mod trace;
