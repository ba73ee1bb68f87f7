//! A hint processor and program-runner core for a register machine over a
//! prime field. The library models instruction operands and hints, gives
//! every hint a canonical textual code that parses back to the hint,
//! builds the offset-keyed hint tables a program image carries, evaluates
//! hints against the virtual machine (including a simulated storage with
//! gas metering behind a system-call interface), assembles instruction
//! words into program data, and extracts a run's return values. The
//! machine itself and the big integers are outside crates, reached through
//! a small trusted surface.

pub mod bigint;
pub mod codec;
pub mod extensions;
pub mod gas_station;
pub mod hints;
pub mod operand;
pub mod processor;
pub mod run;
pub mod scope;
pub mod store;
pub mod unconditional_jump;
pub mod utils;
pub mod vm;
