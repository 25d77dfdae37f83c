//! An LC-3 virtual machine: word-addressed memory, register file, instruction
//! decoder, opcode and trap semantics, object-file loader and disassembler.
//!
//! The machine does no I/O itself. Console output collects in a buffer the host
//! takes with `VM::take_output`; keys reach it through `VM::supply_key`, and
//! `VM::step` / `VM::run` report when a trap waits for one.
pub mod bits;
pub mod decode_instruction;
pub mod display;
pub mod loader;
pub mod opcodes;
pub mod vm;

pub use bits::{mask, sext};
pub use decode_instruction::{decode_instruction, DecodedInstruction};
pub use display::{disassemble, disassemble_program};
pub use loader::{load_program, LoadError};
pub use opcodes::{
    add, add_opcode, and_opcode, br_opcode, jmp_opcode, jsr_opcode, ld_opcode, ldi, ldi_opcode,
    ldr_opcode, lea_opcode, not_opcode, st_opcode, sti_opcode, str_opcode, trap_opcode,
};
pub use vm::{update_flags, Opcode, Register, Step, VM};
