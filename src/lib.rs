//! An instruction-execution core for a classic 8-bit accumulator machine:
//! a flat 64 KiB address space, a small register file, a named set of
//! status flags, and a fetch-decode-execute loop whose every step is proved
//! against the executable model in `semantics`.

pub mod cpu;
pub mod opcode;
pub mod semantics;
pub mod status;

pub use cpu::CPU;
pub use semantics::{ExecError, Flow};
pub use opcode::{AddressingMode, OpCode, OpCodeName, OpCodeTable};
pub use status::{CPUStatus, Flag};
