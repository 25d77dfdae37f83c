//! Machine state: the 65,536-word memory, the ten-entry register file, the
//! keyboard device and the console output buffer.
use crate::decode_instruction::{decode_instruction, decode_spec, lemma_decode_wf, DecodedInstruction};
use crate::opcodes::{
    accept_key, accept_key_exec, add_opcode, add_spec, and_opcode, and_spec, br_opcode, br_spec,
    jmp_opcode, jmp_spec, jsr_opcode, jsr_spec, ld_opcode, ld_spec, ldi_opcode, ldi_spec,
    ldr_opcode, ldr_spec, lea_opcode, lea_spec, not_opcode, not_spec, st_opcode, st_spec,
    sti_opcode, sti_spec, str_opcode, str_spec, trap_opcode, trap_spec,
};
use vstd::prelude::*;

verus! {

/// Number of 16-bit memory cells.
pub const MEMORY_SIZE: usize = 0x10000;

/// Number of registers: R0..R7, PC and COND.
pub const REGISTER_COUNT: usize = 10;

/// Register-file index of R0, the trap routines' argument and result register.
pub const R0: u16 = 0;

/// Register-file index of R7, the subroutine link register.
pub const R7: u16 = 7;

/// Register-file index of the program counter.
pub const PC: u16 = 8;

/// Register-file index of the condition flags.
pub const COND: u16 = 9;

/// Condition flag: the last value written was positive.
pub const FL_POS: u16 = 1;

/// Condition flag: the last value written was zero.
pub const FL_ZRO: u16 = 2;

/// Condition flag: the last value written was negative (bit 15 set).
pub const FL_NEG: u16 = 4;

/// Keyboard status register: bit 15 is set when a key has been read.
pub const MR_KBSR: u16 = 0xFE00;

/// Keyboard data register: the code of the last key read.
pub const MR_KBDR: u16 = 0xFE02;

/// The registers by name; `reg_index` gives each one's place in the register file.
#[derive(PartialEq, Eq, Structural, Debug, Clone, Copy)]
pub enum Register {
    R0,
    R1,
    R2,
    R3,
    R4,
    R5,
    R6,
    R7,
    PC,
    COND,
}

/// The place of a register in the register file.
pub open spec fn reg_index(r: Register) -> u16 {
    match r {
        Register::R0 => 0,
        Register::R1 => 1,
        Register::R2 => 2,
        Register::R3 => 3,
        Register::R4 => 4,
        Register::R5 => 5,
        Register::R6 => 6,
        Register::R7 => 7,
        Register::PC => 8,
        Register::COND => 9,
    }
}

impl From<Register> for u16 {
    fn from(value: Register) -> (r: u16)
        ensures
            r == reg_index(value),
    {
        match value {
            Register::R0 => 0,
            Register::R1 => 1,
            Register::R2 => 2,
            Register::R3 => 3,
            Register::R4 => 4,
            Register::R5 => 5,
            Register::R6 => 6,
            Register::R7 => 7,
            Register::PC => 8,
            Register::COND => 9,
        }
    }
}

impl vstd::std_specs::convert::FromSpecImpl<Register> for u16 {
    open spec fn obeys_from_spec() -> bool {
        true
    }

    open spec fn from_spec(v: Register) -> u16 {
        reg_index(v)
    }
}

/// The sixteen operation codes, in the order of their 4-bit encodings.
#[derive(PartialEq, Eq, Structural, Debug, Clone, Copy)]
pub enum Opcode {
    /// conditional branch
    BR,
    /// addition
    ADD,
    /// PC-relative load
    LD,
    /// PC-relative store
    ST,
    /// jump to subroutine
    JSR,
    /// bitwise and
    AND,
    /// base+offset load
    LDR,
    /// base+offset store
    STR,
    /// return from interrupt (unused)
    RTI,
    /// bitwise complement
    NOT,
    /// indirect load
    LDI,
    /// indirect store
    STI,
    /// jump
    JMP,
    /// reserved (unused)
    RES,
    /// load effective address
    LEA,
    /// trap into a service routine
    TRAP,
}

/// The 4-bit encoding of an opcode.
pub open spec fn opcode_index(op: Opcode) -> u16 {
    match op {
        Opcode::BR => 0,
        Opcode::ADD => 1,
        Opcode::LD => 2,
        Opcode::ST => 3,
        Opcode::JSR => 4,
        Opcode::AND => 5,
        Opcode::LDR => 6,
        Opcode::STR => 7,
        Opcode::RTI => 8,
        Opcode::NOT => 9,
        Opcode::LDI => 10,
        Opcode::STI => 11,
        Opcode::JMP => 12,
        Opcode::RES => 13,
        Opcode::LEA => 14,
        Opcode::TRAP => 15,
    }
}

/// The opcode with the 4-bit encoding `v` (meaningful for `v < 16`).
pub open spec fn opcode_of(v: u16) -> Opcode {
    if v == 0 {
        Opcode::BR
    } else if v == 1 {
        Opcode::ADD
    } else if v == 2 {
        Opcode::LD
    } else if v == 3 {
        Opcode::ST
    } else if v == 4 {
        Opcode::JSR
    } else if v == 5 {
        Opcode::AND
    } else if v == 6 {
        Opcode::LDR
    } else if v == 7 {
        Opcode::STR
    } else if v == 8 {
        Opcode::RTI
    } else if v == 9 {
        Opcode::NOT
    } else if v == 10 {
        Opcode::LDI
    } else if v == 11 {
        Opcode::STI
    } else if v == 12 {
        Opcode::JMP
    } else if v == 13 {
        Opcode::RES
    } else if v == 14 {
        Opcode::LEA
    } else {
        Opcode::TRAP
    }
}

impl Opcode {
    /// The opcode with the 4-bit encoding `value`.
    pub fn from_bits(value: u16) -> (r: Opcode)
        requires
            value < 16,
        ensures
            r == opcode_of(value),
            opcode_index(r) == value,
    {
        if value == 0 {
            Opcode::BR
        } else if value == 1 {
            Opcode::ADD
        } else if value == 2 {
            Opcode::LD
        } else if value == 3 {
            Opcode::ST
        } else if value == 4 {
            Opcode::JSR
        } else if value == 5 {
            Opcode::AND
        } else if value == 6 {
            Opcode::LDR
        } else if value == 7 {
            Opcode::STR
        } else if value == 8 {
            Opcode::RTI
        } else if value == 9 {
            Opcode::NOT
        } else if value == 10 {
            Opcode::LDI
        } else if value == 11 {
            Opcode::STI
        } else if value == 12 {
            Opcode::JMP
        } else if value == 13 {
            Opcode::RES
        } else if value == 14 {
            Opcode::LEA
        } else {
            Opcode::TRAP
        }
    }

    /// The opcode with encoding `value`, or `None` when `value` does not fit in 4 bits.
    pub fn try_from_u16(value: u16) -> (r: Option<Opcode>)
        ensures
            value < 16 ==> r == Some(opcode_of(value)),
            value >= 16 ==> r is None,
    {
        if value < 16 {
            Some(Opcode::from_bits(value))
        } else {
            None
        }
    }
}

impl From<Opcode> for u16 {
    fn from(value: Opcode) -> (r: u16)
        ensures
            r == opcode_index(value),
    {
        match value {
            Opcode::BR => 0,
            Opcode::ADD => 1,
            Opcode::LD => 2,
            Opcode::ST => 3,
            Opcode::JSR => 4,
            Opcode::AND => 5,
            Opcode::LDR => 6,
            Opcode::STR => 7,
            Opcode::RTI => 8,
            Opcode::NOT => 9,
            Opcode::LDI => 10,
            Opcode::STI => 11,
            Opcode::JMP => 12,
            Opcode::RES => 13,
            Opcode::LEA => 14,
            Opcode::TRAP => 15,
        }
    }
}

impl vstd::std_specs::convert::FromSpecImpl<Opcode> for u16 {
    open spec fn obeys_from_spec() -> bool {
        true
    }

    open spec fn from_spec(v: Opcode) -> u16 {
        opcode_index(v)
    }
}

/// What one instruction cycle asks of the host.
#[derive(PartialEq, Eq, Structural, Debug, Clone, Copy)]
pub enum Step {
    /// The instruction completed; the machine can go on.
    Continue,
    /// A GETC or IN trap waits for a key: read one byte from the console and hand it
    /// to `supply_key`.
    NeedKey,
    /// The HALT trap ran.
    Halted,
    /// RTI or RES was executed; the machine stopped.
    IllegalOpcode(Opcode),
    /// A TRAP with an undefined vector was executed; the machine stopped.
    UnknownTrap(u16),
}

/// The condition flag that describes a 16-bit value: ZERO, NEG (bit 15 set) or POS.
pub open spec fn flag_for(v: u16) -> u16 {
    if v == 0 {
        FL_ZRO
    } else if v >= 0x8000 {
        FL_NEG
    } else {
        FL_POS
    }
}

/// The sum of two words, modulo `2^16`.
pub open spec fn add16(a: u16, b: u16) -> u16 {
    ((a as int + b as int) % 0x10000) as u16
}

/// The mathematical model of a machine.
pub struct MachineState {
    /// The memory cells, indexed by address.
    pub memory: Seq<u16>,
    /// R0..R7, PC, COND.
    pub registers: Seq<u16>,
    /// Cleared by the HALT trap and by a fault.
    pub running: bool,
    /// A key read from the console that no program read has taken yet.
    pub key: Option<u8>,
    /// `Some(echo)` while a GETC (`false`) or IN (`true`) trap waits for a key.
    pub awaiting_key: Option<bool>,
    /// Bytes written to the console and not yet taken by the host.
    pub output: Seq<u8>,
}

impl MachineState {
    pub open spec fn wf(self) -> bool {
        &&& self.memory.len() == MEMORY_SIZE
        &&& self.registers.len() == REGISTER_COUNT
    }

    pub open spec fn reg(self, i: u16) -> u16 {
        self.registers[i as int]
    }

    pub open spec fn mem(self, a: u16) -> u16 {
        self.memory[a as int]
    }

    pub open spec fn pc(self) -> u16 {
        self.reg(PC)
    }

    pub open spec fn cond(self) -> u16 {
        self.reg(COND)
    }

    pub open spec fn set_reg(self, i: u16, v: u16) -> MachineState {
        MachineState { registers: self.registers.update(i as int, v), ..self }
    }

    pub open spec fn set_mem(self, a: u16, v: u16) -> MachineState {
        MachineState { memory: self.memory.update(a as int, v), ..self }
    }

    /// Sets COND from the value now held in register `i`.
    pub open spec fn set_flags_from(self, i: u16) -> MachineState {
        self.set_reg(COND, flag_for(self.reg(i)))
    }

    /// Writes `v` to register `i` and sets COND from it.
    pub open spec fn set_reg_flags(self, i: u16, v: u16) -> MachineState {
        self.set_reg(i, v).set_reg(COND, flag_for(v))
    }

    /// A read of KBSR refreshes the keyboard registers: a latched key moves into
    /// KBDR and sets KBSR to `0x8000`; with no key KBSR reads `0`.
    pub open spec fn poll_keyboard(self) -> MachineState {
        match self.key {
            Some(b) => MachineState {
                key: None,
                ..self.set_mem(MR_KBSR, 0x8000).set_mem(MR_KBDR, b as u16)
            },
            None => self.set_mem(MR_KBSR, 0),
        }
    }

    /// The state after a program read of address `a`.
    pub open spec fn after_read(self, a: u16) -> MachineState {
        if a == MR_KBSR {
            self.poll_keyboard()
        } else {
            self
        }
    }

    /// The value a program read of address `a` returns.
    pub open spec fn read(self, a: u16) -> u16 {
        self.after_read(a).mem(a)
    }

    /// Appends bytes to the console output.
    pub open spec fn emit(self, bytes: Seq<u8>) -> MachineState {
        MachineState { output: self.output + bytes, ..self }
    }
}

/// A machine with zeroed memory and registers, not running, with no key latched,
/// no trap waiting and no output.
pub open spec fn blank_state() -> MachineState {
    MachineState {
        memory: Seq::new(MEMORY_SIZE as nat, |a: int| 0u16),
        registers: Seq::new(REGISTER_COUNT as nat, |i: int| 0u16),
        running: false,
        key: None,
        awaiting_key: None,
        output: Seq::empty(),
    }
}

/// An LC-3 machine.
pub struct VM {
    memory: Vec<u16>,
    registers: Vec<u16>,
    running: bool,
    key: Option<u8>,
    awaiting_key: Option<bool>,
    output: Vec<u8>,
}

impl View for VM {
    type V = MachineState;

    closed spec fn view(&self) -> MachineState {
        MachineState {
            memory: self.memory@,
            registers: self.registers@,
            running: self.running,
            key: self.key,
            awaiting_key: self.awaiting_key,
            output: self.output@,
        }
    }
}

impl VM {
    pub open spec fn wf(&self) -> bool {
        self@.wf()
    }

    /// A machine with zeroed memory and registers, not running, with no key latched
    /// and no output.
    pub fn init() -> (vm: VM)
        ensures
            vm.wf(),
            vm@ == blank_state(),
    {
        let vm = VM {
            memory: vec![0u16; MEMORY_SIZE],
            registers: vec![0u16; REGISTER_COUNT],
            running: false,
            key: None,
            awaiting_key: None,
            output: Vec::new(),
        };
        assert(vm@.memory =~= blank_state().memory);
        assert(vm@.registers =~= blank_state().registers);
        assert(vm@.output =~= blank_state().output);
        vm
    }

    /// The value of register `addr`.
    pub fn reg(&self, addr: u16) -> (r: u16)
        requires
            self.wf(),
            addr < REGISTER_COUNT,
        ensures
            r == self@.reg(addr),
    {
        self.registers[addr as usize]
    }

    /// A mutable reference to register `addr`.
    pub fn reg_mut(&mut self, addr: u16) -> (r: &mut u16)
        requires
            old(self).wf(),
            addr < REGISTER_COUNT,
        ensures
            *r == old(self)@.reg(addr),
            final(self)@ == old(self)@.set_reg(addr, *final(r)),
    {
        &mut self.registers[addr as usize]
    }

    /// The value of memory cell `addr`, read without any device side effect.
    pub fn mem(&self, addr: u16) -> (r: u16)
        requires
            self.wf(),
        ensures
            r == self@.mem(addr),
    {
        self.memory[addr as usize]
    }

    /// A mutable reference to memory cell `addr`.
    pub fn mem_mut(&mut self, addr: u16) -> (r: &mut u16)
        requires
            old(self).wf(),
        ensures
            *r == old(self)@.mem(addr),
            final(self)@ == old(self)@.set_mem(addr, *final(r)),
    {
        &mut self.memory[addr as usize]
    }
    /// Whether the machine is running: set by `run`, cleared by HALT and by faults.
    pub fn is_running(&self) -> (r: bool)
        ensures
            r == self@.running,
    {
        self.running
    }

    /// Whether a key read from the console is latched and not yet taken by a program.
    pub fn has_key(&self) -> (r: bool)
        ensures
            r == self@.key is Some,
    {
        self.key.is_some()
    }

    /// Whether a GETC or IN trap is waiting for a key.
    pub fn is_awaiting_key(&self) -> (r: bool)
        ensures
            r == self@.awaiting_key is Some,
    {
        self.awaiting_key.is_some()
    }

    /// The console output not yet taken.
    pub fn output(&self) -> (r: &Vec<u8>)
        ensures
            r@ == self@.output,
    {
        &self.output
    }

    /// Takes the pending console output, leaving none.
    pub fn take_output(&mut self) -> (r: Vec<u8>)
        ensures
            r@ == old(self)@.output,
            final(self)@ == (MachineState { output: Seq::empty(), ..old(self)@ }),
    {
        let mut out: Vec<u8> = Vec::new();
        core::mem::swap(&mut out, &mut self.output);
        out
    }

    /// A program read of memory: a read of KBSR first refreshes the keyboard
    /// registers from the latched key; every other address is a plain lookup.
    pub fn read_memory(&mut self, addr: u16) -> (r: u16)
        requires
            old(self).wf(),
        ensures
            final(self).wf(),
            final(self)@ == old(self)@.after_read(addr),
            r == old(self)@.read(addr),
    {
        if addr == MR_KBSR {
            match self.key {
                Some(b) => {
                    self.memory.set(MR_KBSR as usize, 0x8000);
                    self.memory.set(MR_KBDR as usize, b as u16);
                    self.key = None;
                },
                None => {
                    self.memory.set(MR_KBSR as usize, 0);
                },
            }
        }
        self.memory[addr as usize]
    }

    /// Appends one byte to the console output.
    pub(crate) fn write_output(&mut self, byte: u8)
        ensures
            final(self)@ == old(self)@.emit(seq![byte]),
    {
        self.output.push(byte);
        assert(self.output@ =~= old(self).output@ + seq![byte]);
    }

    /// Takes the latched key, if any.
    pub(crate) fn take_key(&mut self) -> (r: Option<u8>)
        ensures
            r == old(self)@.key,
            final(self)@ == (MachineState { key: None, ..old(self)@ }),
    {
        let k = self.key;
        self.key = None;
        k
    }

    /// Suspends the machine until a key is supplied; `echo` asks for the key to be
    /// written back to the console.
    pub(crate) fn await_key(&mut self, echo: bool)
        ensures
            final(self)@ == (MachineState { awaiting_key: Some(echo), ..old(self)@ }),
    {
        self.awaiting_key = Some(echo);
    }

    /// Sets or clears the running flag.
    pub(crate) fn set_running(&mut self, running: bool)
        ensures
            final(self)@ == (MachineState { running, ..old(self)@ }),
    {
        self.running = running;
    }
}

/// Sets COND from the value held in register `register_addr`: ZERO if it is zero,
/// NEG if bit 15 is set, else POS.
pub fn update_flags(vm: &mut VM, register_addr: u16)
    requires
        old(vm).wf(),
        register_addr < REGISTER_COUNT,
    ensures
        final(vm).wf(),
        final(vm)@ == old(vm)@.set_flags_from(register_addr),
{
    let register_value = vm.reg(register_addr);
    assert(register_value >> 15u16 == 1 <==> register_value >= 0x8000) by (bit_vector);
    let cond_state = if register_value == 0 {
        FL_ZRO
    } else if register_value >> 15 == 1 {
        FL_NEG
    } else {
        FL_POS
    };
    *vm.reg_mut(COND) = cond_state;
}

/// Executes a decoded instruction on a machine whose PC already points past it.
pub open spec fn execute_spec(s: MachineState, i: DecodedInstruction) -> (MachineState, Step) {
    match i.opcode {
        Opcode::BR => (br_spec(s, i), Step::Continue),
        Opcode::ADD => (add_spec(s, i), Step::Continue),
        Opcode::LD => (ld_spec(s, i), Step::Continue),
        Opcode::ST => (st_spec(s, i), Step::Continue),
        Opcode::JSR => (jsr_spec(s, i), Step::Continue),
        Opcode::AND => (and_spec(s, i), Step::Continue),
        Opcode::LDR => (ldr_spec(s, i), Step::Continue),
        Opcode::STR => (str_spec(s, i), Step::Continue),
        Opcode::NOT => (not_spec(s, i), Step::Continue),
        Opcode::LDI => (ldi_spec(s, i), Step::Continue),
        Opcode::STI => (sti_spec(s, i), Step::Continue),
        Opcode::JMP => (jmp_spec(s, i), Step::Continue),
        Opcode::LEA => (lea_spec(s, i), Step::Continue),
        Opcode::TRAP => trap_spec(s, i),
        Opcode::RTI | Opcode::RES => (
            MachineState { running: false, ..s },
            Step::IllegalOpcode(i.opcode),
        ),
    }
}

/// One instruction cycle: fetch `MEM[PC]` (a program read), increment PC, decode,
/// execute. A machine waiting for a key does nothing.
pub open spec fn step_spec(s: MachineState) -> (MachineState, Step) {
    if s.awaiting_key is Some {
        (s, Step::NeedKey)
    } else {
        let pc = s.pc();
        let fetched = s.after_read(pc).set_reg(PC, add16(pc, 1));
        execute_spec(fetched, decode_spec(s.read(pc)))
    }
}

/// Up to `n` cycles, stopping after the first one that does not simply continue.
pub open spec fn run_spec(s: MachineState, n: nat) -> (MachineState, Step)
    decreases n,
{
    if n == 0 {
        (s, Step::Continue)
    } else {
        let (t, r) = step_spec(s);
        if r is Continue {
            run_spec(t, (n - 1) as nat)
        } else {
            (t, r)
        }
    }
}

/// A key from the console: completes a waiting GETC or IN trap, else is latched
/// for the keyboard registers and the next key-reading trap.
pub open spec fn supply_key_spec(s: MachineState, b: u8) -> MachineState {
    match s.awaiting_key {
        Some(echo) => accept_key(MachineState { awaiting_key: None, ..s }, b, echo),
        None => MachineState { key: Some(b), ..s },
    }
}

impl VM {
    /// Hands the machine one key read from the console.
    pub fn supply_key(&mut self, byte: u8)
        requires
            old(self).wf(),
        ensures
            final(self).wf(),
            final(self)@ == supply_key_spec(old(self)@, byte),
    {
        match self.awaiting_key {
            Some(echo) => {
                self.awaiting_key = None;
                accept_key_exec(self, byte, echo);
            },
            None => {
                self.key = Some(byte);
            },
        }
    }

    /// Runs one instruction cycle and reports what the host must do next.
    pub fn step(&mut self) -> (r: Step)
        requires
            old(self).wf(),
        ensures
            final(self).wf(),
            (final(self)@, r) == step_spec(old(self)@),
    {
        if self.awaiting_key.is_some() {
            return Step::NeedKey;
        }
        let pc = self.reg(PC);
        let instruction = self.read_memory(pc);
        *self.reg_mut(PC) = pc.wrapping_add(1);
        let decoded_instruction = decode_instruction(instruction);
        match decoded_instruction.opcode {
            Opcode::BR => br_opcode(self, decoded_instruction),
            Opcode::ADD => add_opcode(self, decoded_instruction),
            Opcode::LD => ld_opcode(self, decoded_instruction),
            Opcode::ST => st_opcode(self, decoded_instruction),
            Opcode::JSR => jsr_opcode(self, decoded_instruction),
            Opcode::AND => and_opcode(self, decoded_instruction),
            Opcode::LDR => ldr_opcode(self, decoded_instruction),
            Opcode::STR => str_opcode(self, decoded_instruction),
            Opcode::NOT => not_opcode(self, decoded_instruction),
            Opcode::LDI => ldi_opcode(self, decoded_instruction),
            Opcode::STI => sti_opcode(self, decoded_instruction),
            Opcode::JMP => jmp_opcode(self, decoded_instruction),
            Opcode::LEA => lea_opcode(self, decoded_instruction),
            Opcode::TRAP => {
                return trap_opcode(self, decoded_instruction);
            },
            Opcode::RTI | Opcode::RES => {
                self.running = false;
                return Step::IllegalOpcode(decoded_instruction.opcode);
            },
        }
        Step::Continue
    }

    /// Marks the machine running and executes up to `max_steps` instruction cycles,
    /// returning early with the first cycle's report that is not `Continue`
    /// (a halt, a fault, or a wait for a key).
    pub fn run(&mut self, max_steps: u64) -> (r: Step)
        requires
            old(self).wf(),
        ensures
            final(self).wf(),
            (final(self)@, r) == run_spec(MachineState { running: true, ..old(self)@ }, max_steps as nat),
    {
        self.running = true;
        let mut left = max_steps;
        while left > 0
            invariant
                self.wf(),
                run_spec(self@, left as nat) == run_spec(
                    MachineState { running: true, ..old(self)@ },
                    max_steps as nat,
                ),
            decreases left,
        {
            let r = self.step();
            if r != Step::Continue {
                return r;
            }
            left = left - 1;
        }
        Step::Continue
    }
}

/// COND holds one of the three flags.
pub open spec fn cond_valid(s: MachineState) -> bool {
    s.cond() == FL_POS || s.cond() == FL_ZRO || s.cond() == FL_NEG
}

/// Once COND holds one of the three flags it always does: every instruction cycle
/// and every key handed to the machine keep it so, and keep the machine's shape.
pub proof fn lemma_cond_stays_valid(s: MachineState, b: u8)
    requires
        s.wf(),
        cond_valid(s),
    ensures
        step_spec(s).0.wf(),
        cond_valid(step_spec(s).0),
        supply_key_spec(s, b).wf(),
        cond_valid(supply_key_spec(s, b)),
{
    lemma_decode_wf(s.read(s.pc()));
}

} // verus!
