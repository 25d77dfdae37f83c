//! The opcode handlers and the trap service routines. Every handler takes a
//! decoded instruction and changes the machine as its specification function says.
use crate::decode_instruction::{decode_instruction, decode_spec, DecodedInstruction};
use crate::bits::signed_value;
use crate::vm::{
    add16, execute_spec, flag_for, supply_key_spec, update_flags, MachineState, Opcode, Step, VM,
    COND, FL_NEG, FL_POS, FL_ZRO, MEMORY_SIZE, PC, R0, R7,
};
use vstd::arithmetic::power2::lemma2_to64;
use vstd::prelude::*;

verus! {

/// The second operand of ADD and AND: the immediate when the mode bit is set,
/// else register `sr2`.
pub open spec fn operand2(s: MachineState, i: DecodedInstruction) -> u16 {
    if i.flag == 1 {
        i.imm5
    } else {
        s.reg(i.sr2)
    }
}

/// ADD: `R[dr] <- R[sr1] + operand2`, then flags from `R[dr]`.
pub open spec fn add_spec(s: MachineState, i: DecodedInstruction) -> MachineState {
    s.set_reg_flags(i.dr, add16(s.reg(i.sr1), operand2(s, i)))
}

/// AND: `R[dr] <- R[sr1] & operand2`, then flags from `R[dr]`.
pub open spec fn and_spec(s: MachineState, i: DecodedInstruction) -> MachineState {
    s.set_reg_flags(i.dr, s.reg(i.sr1) & operand2(s, i))
}

/// NOT: `R[dr] <- !R[sr1]`, then flags from `R[dr]`.
pub open spec fn not_spec(s: MachineState, i: DecodedInstruction) -> MachineState {
    s.set_reg_flags(i.dr, !s.reg(i.sr1))
}

/// BR: adds the offset to PC when the mask shares a bit with COND.
pub open spec fn br_spec(s: MachineState, i: DecodedInstruction) -> MachineState {
    if i.nzp & s.cond() != 0 {
        s.set_reg(PC, add16(s.pc(), i.offset))
    } else {
        s
    }
}

/// JMP: `PC <- R[base_r]`.
pub open spec fn jmp_spec(s: MachineState, i: DecodedInstruction) -> MachineState {
    s.set_reg(PC, s.reg(i.base_r))
}

/// JSR / JSRR: `R7 <- PC`; then `PC <- PC + offset` when the mode bit is set, else
/// `PC <- R[base_r]` (read after R7 has been written).
pub open spec fn jsr_spec(s: MachineState, i: DecodedInstruction) -> MachineState {
    let t = s.set_reg(R7, s.pc());
    if i.flag == 1 {
        t.set_reg(PC, add16(s.pc(), i.offset))
    } else {
        t.set_reg(PC, t.reg(i.base_r))
    }
}

/// A load of `R[dr]` from the program read of address `a`, with flags.
pub open spec fn load_spec(s: MachineState, dr: u16, a: u16) -> MachineState {
    s.after_read(a).set_reg_flags(dr, s.read(a))
}

/// LD: `R[dr] <- MEM[PC + offset]`, with flags.
pub open spec fn ld_spec(s: MachineState, i: DecodedInstruction) -> MachineState {
    load_spec(s, i.dr, add16(s.pc(), i.offset))
}

/// LDI: `R[dr] <- MEM[MEM[PC + offset]]`, with flags.
pub open spec fn ldi_spec(s: MachineState, i: DecodedInstruction) -> MachineState {
    let a = add16(s.pc(), i.offset);
    load_spec(s.after_read(a), i.dr, s.read(a))
}

/// LDR: `R[dr] <- MEM[R[base_r] + offset]`, with flags.
pub open spec fn ldr_spec(s: MachineState, i: DecodedInstruction) -> MachineState {
    load_spec(s, i.dr, add16(s.reg(i.base_r), i.offset))
}

/// LEA: `R[dr] <- PC + offset`, with flags.
pub open spec fn lea_spec(s: MachineState, i: DecodedInstruction) -> MachineState {
    s.set_reg_flags(i.dr, add16(s.pc(), i.offset))
}

/// ST: `MEM[PC + offset] <- R[dr]`.
pub open spec fn st_spec(s: MachineState, i: DecodedInstruction) -> MachineState {
    s.set_mem(add16(s.pc(), i.offset), s.reg(i.dr))
}

/// STI: `MEM[MEM[PC + offset]] <- R[dr]`.
pub open spec fn sti_spec(s: MachineState, i: DecodedInstruction) -> MachineState {
    let a = add16(s.pc(), i.offset);
    s.after_read(a).set_mem(s.read(a), s.reg(i.dr))
}

/// STR: `MEM[R[base_r] + offset] <- R[dr]`.
pub open spec fn str_spec(s: MachineState, i: DecodedInstruction) -> MachineState {
    s.set_mem(add16(s.reg(i.base_r), i.offset), s.reg(i.dr))
}

/// Adds two words modulo `2^16`.
fn wrap_add(a: u16, b: u16) -> (r: u16)
    ensures
        r == add16(a, b),
{
    a.wrapping_add(b)
}

/// ADD: adds `R[sr1]` and the second operand into `R[dr]`, modulo `2^16`, and sets the flags.
pub fn add_opcode(vm: &mut VM, instruction: DecodedInstruction)
    requires
        old(vm).wf(),
        instruction.wf(),
    ensures
        final(vm).wf(),
        final(vm)@ == add_spec(old(vm)@, instruction),
{
    let v = if instruction.flag == 1 {
        wrap_add(vm.reg(instruction.sr1), instruction.imm5)
    } else {
        wrap_add(vm.reg(instruction.sr1), vm.reg(instruction.sr2))
    };
    *vm.reg_mut(instruction.dr) = v;
    update_flags(vm, instruction.dr);
}

/// AND: bitwise and of `R[sr1]` and the second operand into `R[dr]`, and sets the flags.
pub fn and_opcode(vm: &mut VM, instruction: DecodedInstruction)
    requires
        old(vm).wf(),
        instruction.wf(),
    ensures
        final(vm).wf(),
        final(vm)@ == and_spec(old(vm)@, instruction),
{
    let v = if instruction.flag == 1 {
        vm.reg(instruction.sr1) & instruction.imm5
    } else {
        vm.reg(instruction.sr1) & vm.reg(instruction.sr2)
    };
    *vm.reg_mut(instruction.dr) = v;
    update_flags(vm, instruction.dr);
}

/// NOT: bitwise complement of `R[sr1]` into `R[dr]`, and sets the flags.
pub fn not_opcode(vm: &mut VM, instruction: DecodedInstruction)
    requires
        old(vm).wf(),
        instruction.wf(),
    ensures
        final(vm).wf(),
        final(vm)@ == not_spec(old(vm)@, instruction),
{
    let v = !vm.reg(instruction.sr1);
    *vm.reg_mut(instruction.dr) = v;
    update_flags(vm, instruction.dr);
}

/// BR: branches by the offset when the `nzp` mask meets COND. Flags are kept.
pub fn br_opcode(vm: &mut VM, instruction: DecodedInstruction)
    requires
        old(vm).wf(),
        instruction.wf(),
    ensures
        final(vm).wf(),
        final(vm)@ == br_spec(old(vm)@, instruction),
{
    let cond_state = vm.reg(COND);
    if (instruction.nzp & cond_state) != 0 {
        let target = wrap_add(vm.reg(PC), instruction.offset);
        *vm.reg_mut(PC) = target;
    }
}

/// JMP (RET when `base_r` is 7): jumps to `R[base_r]`. Flags are kept.
pub fn jmp_opcode(vm: &mut VM, instruction: DecodedInstruction)
    requires
        old(vm).wf(),
        instruction.wf(),
    ensures
        final(vm).wf(),
        final(vm)@ == jmp_spec(old(vm)@, instruction),
{
    let target = vm.reg(instruction.base_r);
    *vm.reg_mut(PC) = target;
}

/// JSR / JSRR: saves PC in R7 and jumps PC-relative or to `R[base_r]`. Flags are kept.
pub fn jsr_opcode(vm: &mut VM, instruction: DecodedInstruction)
    requires
        old(vm).wf(),
        instruction.wf(),
    ensures
        final(vm).wf(),
        final(vm)@ == jsr_spec(old(vm)@, instruction),
{
    let pc = vm.reg(PC);
    *vm.reg_mut(R7) = pc;
    let target = if instruction.flag == 1 {
        wrap_add(pc, instruction.offset)
    } else {
        vm.reg(instruction.base_r)
    };
    *vm.reg_mut(PC) = target;
}

/// LD: loads `MEM[PC + offset]` into `R[dr]` and sets the flags.
pub fn ld_opcode(vm: &mut VM, instruction: DecodedInstruction)
    requires
        old(vm).wf(),
        instruction.wf(),
    ensures
        final(vm).wf(),
        final(vm)@ == ld_spec(old(vm)@, instruction),
{
    let addr = wrap_add(vm.reg(PC), instruction.offset);
    let v = vm.read_memory(addr);
    *vm.reg_mut(instruction.dr) = v;
    update_flags(vm, instruction.dr);
}

/// LDI: loads `MEM[MEM[PC + offset]]` into `R[dr]` and sets the flags.
pub fn ldi_opcode(vm: &mut VM, instruction: DecodedInstruction)
    requires
        old(vm).wf(),
        instruction.wf(),
    ensures
        final(vm).wf(),
        final(vm)@ == ldi_spec(old(vm)@, instruction),
{
    let pointer_addr = wrap_add(vm.reg(PC), instruction.offset);
    let pointer_data = vm.read_memory(pointer_addr);
    let v = vm.read_memory(pointer_data);
    *vm.reg_mut(instruction.dr) = v;
    update_flags(vm, instruction.dr);
}

/// LDR: loads `MEM[R[base_r] + offset]` into `R[dr]` and sets the flags.
pub fn ldr_opcode(vm: &mut VM, instruction: DecodedInstruction)
    requires
        old(vm).wf(),
        instruction.wf(),
    ensures
        final(vm).wf(),
        final(vm)@ == ldr_spec(old(vm)@, instruction),
{
    let mem_addr = wrap_add(vm.reg(instruction.base_r), instruction.offset);
    let v = vm.read_memory(mem_addr);
    *vm.reg_mut(instruction.dr) = v;
    update_flags(vm, instruction.dr);
}

/// LEA: puts `PC + offset` into `R[dr]` and sets the flags.
pub fn lea_opcode(vm: &mut VM, instruction: DecodedInstruction)
    requires
        old(vm).wf(),
        instruction.wf(),
    ensures
        final(vm).wf(),
        final(vm)@ == lea_spec(old(vm)@, instruction),
{
    let v = wrap_add(vm.reg(PC), instruction.offset);
    *vm.reg_mut(instruction.dr) = v;
    update_flags(vm, instruction.dr);
}

/// ST: stores `R[dr]` at `PC + offset`. Flags are kept.
pub fn st_opcode(vm: &mut VM, instruction: DecodedInstruction)
    requires
        old(vm).wf(),
        instruction.wf(),
    ensures
        final(vm).wf(),
        final(vm)@ == st_spec(old(vm)@, instruction),
{
    let addr = wrap_add(vm.reg(PC), instruction.offset);
    let v = vm.reg(instruction.dr);
    *vm.mem_mut(addr) = v;
}

/// STI: stores `R[dr]` at the address held in `MEM[PC + offset]`. Flags are kept.
pub fn sti_opcode(vm: &mut VM, instruction: DecodedInstruction)
    requires
        old(vm).wf(),
        instruction.wf(),
    ensures
        final(vm).wf(),
        final(vm)@ == sti_spec(old(vm)@, instruction),
{
    let v = vm.reg(instruction.dr);
    let pointer_addr = wrap_add(vm.reg(PC), instruction.offset);
    let pointer_data = vm.read_memory(pointer_addr);
    *vm.mem_mut(pointer_data) = v;
}

/// STR: stores `R[dr]` at `R[base_r] + offset`. Flags are kept.
pub fn str_opcode(vm: &mut VM, instruction: DecodedInstruction)
    requires
        old(vm).wf(),
        instruction.wf(),
    ensures
        final(vm).wf(),
        final(vm)@ == str_spec(old(vm)@, instruction),
{
    let mem_addr = wrap_add(vm.reg(instruction.base_r), instruction.offset);
    let v = vm.reg(instruction.dr);
    *vm.mem_mut(mem_addr) = v;
}

/// Trap vector of GETC: read a key into R0, without echo.
pub const TRAP_GETC: u16 = 0x20;

/// Trap vector of OUT: write the low byte of R0.
pub const TRAP_OUT: u16 = 0x21;

/// Trap vector of PUTS: write a zero-terminated string, one character per word.
pub const TRAP_PUTS: u16 = 0x22;

/// Trap vector of IN: prompt, read a key into R0 and echo it.
pub const TRAP_IN: u16 = 0x23;

/// Trap vector of PUTSP: write a zero-terminated string, two characters per word.
pub const TRAP_PUTSP: u16 = 0x24;

/// Trap vector of HALT: stop the machine.
pub const TRAP_HALT: u16 = 0x25;

/// The low byte of a word.
pub open spec fn low_byte(w: u16) -> u8 {
    (w % 256) as u8
}

/// The high byte of a word.
pub open spec fn high_byte(w: u16) -> u8 {
    (w / 256) as u8
}

/// The low bytes of the cells from address `a` (wrapping past `0xFFFF`) up to the
/// first zero cell, looking at no more than `n` cells.
pub open spec fn string_at(memory: Seq<u16>, a: u16, n: nat) -> Seq<u8>
    decreases n,
{
    if n == 0 || memory[a as int] == 0 {
        Seq::empty()
    } else {
        seq![low_byte(memory[a as int])] + string_at(memory, add16(a, 1), (n - 1) as nat)
    }
}

/// The characters packed two per cell (low byte first) in the cells from address
/// `a` up to the first zero cell, looking at no more than `n` cells.
pub open spec fn packed_string_at(memory: Seq<u16>, a: u16, n: nat) -> Seq<u8>
    decreases n,
{
    if n == 0 || memory[a as int] == 0 {
        Seq::empty()
    } else {
        seq![low_byte(memory[a as int]), high_byte(memory[a as int])] + packed_string_at(
            memory,
            add16(a, 1),
            (n - 1) as nat,
        )
    }
}

/// The prompt that IN writes before it reads.
pub open spec fn in_prompt() -> Seq<u8> {
    seq![
        69u8, 110, 116, 101, 114, 32, 97, 32, 99, 104, 97, 114, 97, 99, 116, 101, 114, 58, 32,
    ]
}

/// The state after a key `b` is taken into R0, with flags; `echo` writes it back.
pub open spec fn accept_key(s: MachineState, b: u8, echo: bool) -> MachineState {
    let t = if echo {
        s.emit(seq![b])
    } else {
        s
    };
    t.set_reg_flags(R0, b as u16)
}

/// A trap that reads a key: takes the latched key if there is one, else suspends
/// the machine until the host supplies one.
pub open spec fn read_key_spec(s: MachineState, echo: bool) -> (MachineState, Step) {
    match s.key {
        Some(b) => (accept_key(MachineState { key: None, ..s }, b, echo), Step::Continue),
        None => (MachineState { awaiting_key: Some(echo), ..s }, Step::NeedKey),
    }
}

/// TRAP: the service routine selected by `trap_code`.
pub open spec fn trap_spec(s: MachineState, i: DecodedInstruction) -> (MachineState, Step) {
    if i.trap_code == TRAP_GETC {
        read_key_spec(s, false)
    } else if i.trap_code == TRAP_OUT {
        (s.emit(seq![low_byte(s.reg(R0))]), Step::Continue)
    } else if i.trap_code == TRAP_PUTS {
        (s.emit(string_at(s.memory, s.reg(R0), MEMORY_SIZE as nat)), Step::Continue)
    } else if i.trap_code == TRAP_IN {
        read_key_spec(s.emit(in_prompt()), true)
    } else if i.trap_code == TRAP_PUTSP {
        (s.emit(packed_string_at(s.memory, s.reg(R0), MEMORY_SIZE as nat)), Step::Continue)
    } else if i.trap_code == TRAP_HALT {
        (MachineState { running: false, ..s }, Step::Halted)
    } else {
        (MachineState { running: false, ..s }, Step::UnknownTrap(i.trap_code))
    }
}

fn low_byte_of(w: u16) -> (r: u8)
    ensures
        r == low_byte(w),
{
    (w % 256) as u8
}

fn high_byte_of(w: u16) -> (r: u8)
    ensures
        r == high_byte(w),
{
    (w / 256) as u8
}

/// Takes key `b` into R0 and sets the flags; with `echo`, writes it to the output.
pub(crate) fn accept_key_exec(vm: &mut VM, b: u8, echo: bool)
    requires
        old(vm).wf(),
    ensures
        final(vm).wf(),
        final(vm)@ == accept_key(old(vm)@, b, echo),
{
    if echo {
        vm.write_output(b);
    }
    *vm.reg_mut(R0) = b as u16;
    update_flags(vm, R0);
}

fn read_key(vm: &mut VM, echo: bool) -> (r: Step)
    requires
        old(vm).wf(),
    ensures
        final(vm).wf(),
        (final(vm)@, r) == read_key_spec(old(vm)@, echo),
{
    match vm.take_key() {
        Some(b) => {
            accept_key_exec(vm, b, echo);
            Step::Continue
        },
        None => {
            vm.await_key(echo);
            Step::NeedKey
        },
    }
}

/// Writes the low byte of R0.
fn trap_out(vm: &mut VM)
    requires
        old(vm).wf(),
    ensures
        final(vm).wf(),
        final(vm)@ == old(vm)@.emit(seq![low_byte(old(vm)@.reg(R0))]),
{
    let c = low_byte_of(vm.reg(R0));
    vm.write_output(c);
}

/// Writes the string at address R0, one character per word.
fn trap_puts(vm: &mut VM)
    requires
        old(vm).wf(),
    ensures
        final(vm).wf(),
        final(vm)@ == old(vm)@.emit(string_at(old(vm)@.memory, old(vm)@.reg(R0), MEMORY_SIZE as nat)),
{
    let ghost start = vm@;
    let ghost full = string_at(start.memory, start.reg(R0), MEMORY_SIZE as nat);
    let mut mem_addr = vm.reg(R0);
    let mut remaining: u32 = 0x10000;
    loop
        invariant
            vm.wf(),
            vm@ == (MachineState { output: vm@.output, ..start }),
            vm@.output + string_at(start.memory, mem_addr, remaining as nat) == start.output + full,
        ensures
            vm.wf(),
            vm@ == (MachineState { output: vm@.output, ..start }),
            vm@.output =~= start.output + full,
        decreases remaining,
    {
        let data = vm.mem(mem_addr);
        if remaining == 0 || data == 0 {
            assert(vm@.output + Seq::<u8>::empty() =~= vm@.output);
            break;
        }
        let ghost before = vm@.output;
        let ghost rest = string_at(start.memory, add16(mem_addr, 1), (remaining - 1) as nat);
        vm.write_output(low_byte_of(data));
        assert(vm@.output + rest =~= before + (seq![low_byte(data)] + rest));
        mem_addr = wrap_add(mem_addr, 1);
        remaining = remaining - 1;
    }
}

/// Writes the string at address R0, two characters per word, low byte first.
fn trap_putsp(vm: &mut VM)
    requires
        old(vm).wf(),
    ensures
        final(vm).wf(),
        final(vm)@ == old(vm)@.emit(
            packed_string_at(old(vm)@.memory, old(vm)@.reg(R0), MEMORY_SIZE as nat),
        ),
{
    let ghost start = vm@;
    let ghost full = packed_string_at(start.memory, start.reg(R0), MEMORY_SIZE as nat);
    let mut mem_addr = vm.reg(R0);
    let mut remaining: u32 = 0x10000;
    loop
        invariant
            vm.wf(),
            vm@ == (MachineState { output: vm@.output, ..start }),
            vm@.output + packed_string_at(start.memory, mem_addr, remaining as nat) == start.output
                + full,
        ensures
            vm.wf(),
            vm@ == (MachineState { output: vm@.output, ..start }),
            vm@.output =~= start.output + full,
        decreases remaining,
    {
        let data = vm.mem(mem_addr);
        if remaining == 0 || data == 0 {
            assert(vm@.output + Seq::<u8>::empty() =~= vm@.output);
            break;
        }
        let ghost before = vm@.output;
        let ghost rest = packed_string_at(start.memory, add16(mem_addr, 1), (remaining - 1) as nat);
        vm.write_output(low_byte_of(data));
        vm.write_output(high_byte_of(data));
        assert(vm@.output + rest =~= before + (seq![low_byte(data), high_byte(data)] + rest));
        mem_addr = wrap_add(mem_addr, 1);
        remaining = remaining - 1;
    }
}

/// Writes the IN prompt.
fn write_prompt(vm: &mut VM)
    requires
        old(vm).wf(),
    ensures
        final(vm).wf(),
        final(vm)@ == old(vm)@.emit(in_prompt()),
{
    let prompt: Vec<u8> = vec![
        69u8, 110, 116, 101, 114, 32, 97, 32, 99, 104, 97, 114, 97, 99, 116, 101, 114, 58, 32,
    ];
    let ghost start = vm@;
    let mut k: usize = 0;
    while k < prompt.len()
        invariant
            vm.wf(),
            prompt@ == in_prompt(),
            k <= prompt.len(),
            vm@ == start.emit(prompt@.take(k as int)),
        decreases prompt.len() - k,
    {
        vm.write_output(prompt[k]);
        assert(prompt@.take(k as int) + seq![prompt@[k as int]] =~= prompt@.take(k + 1));
        assert(start.output + prompt@.take(k as int) + seq![prompt@[k as int]] =~= start.output
            + prompt@.take(k + 1));
        k = k + 1;
    }
    assert(prompt@.take(k as int) =~= in_prompt());
}

/// TRAP: runs the service routine that `trap_code` selects and reports what the
/// host must do next.
pub fn trap_opcode(vm: &mut VM, instruction: DecodedInstruction) -> (r: Step)
    requires
        old(vm).wf(),
        instruction.wf(),
    ensures
        final(vm).wf(),
        (final(vm)@, r) == trap_spec(old(vm)@, instruction),
{
    let code = instruction.trap_code;
    if code == TRAP_GETC {
        read_key(vm, false)
    } else if code == TRAP_OUT {
        trap_out(vm);
        Step::Continue
    } else if code == TRAP_PUTS {
        trap_puts(vm);
        Step::Continue
    } else if code == TRAP_IN {
        write_prompt(vm);
        read_key(vm, true)
    } else if code == TRAP_PUTSP {
        trap_putsp(vm);
        Step::Continue
    } else if code == TRAP_HALT {
        vm.set_running(false);
        Step::Halted
    } else {
        vm.set_running(false);
        Step::UnknownTrap(code)
    }
}

/// Decodes an instruction word and executes it as ADD, whatever its opcode bits.
pub fn add(vm: &mut VM, instruction: u16)
    requires
        old(vm).wf(),
    ensures
        final(vm).wf(),
        final(vm)@ == add_spec(old(vm)@, decode_spec(instruction)),
{
    add_opcode(vm, decode_instruction(instruction));
}

/// Decodes an instruction word and executes it as LDI, whatever its opcode bits.
pub fn ldi(vm: &mut VM, instruction: u16)
    requires
        old(vm).wf(),
    ensures
        final(vm).wf(),
        final(vm)@ == ldi_spec(old(vm)@, decode_spec(instruction)),
{
    ldi_opcode(vm, decode_instruction(instruction));
}

/// Whether an opcode writes `R[dr]` (and so sets the flags from it).
pub open spec fn writes_dr(op: Opcode) -> bool {
    op == Opcode::ADD || op == Opcode::AND || op == Opcode::NOT || op == Opcode::LD || op
        == Opcode::LDI || op == Opcode::LDR || op == Opcode::LEA
}

/// Whether an instruction leaves the flags alone: BR, JMP, JSR, the stores, and the
/// OUT, PUTS, PUTSP and HALT traps.
pub open spec fn keeps_flags(i: DecodedInstruction) -> bool {
    ||| i.opcode == Opcode::BR
    ||| i.opcode == Opcode::JMP
    ||| i.opcode == Opcode::JSR
    ||| i.opcode == Opcode::ST
    ||| i.opcode == Opcode::STI
    ||| i.opcode == Opcode::STR
    ||| (i.opcode == Opcode::TRAP && (i.trap_code == TRAP_OUT || i.trap_code == TRAP_PUTS
        || i.trap_code == TRAP_PUTSP || i.trap_code == TRAP_HALT))
}

/// COND describes the value written: after every instruction that writes `R[dr]`,
/// COND is one of POS, ZERO, NEG and is ZERO exactly when `R[dr]` is zero and NEG
/// exactly when its bit 15 is set. The same holds of R0 when a key completes a
/// GETC or IN trap.
pub proof fn lemma_flags_follow_result(s: MachineState, i: DecodedInstruction, key: u8)
    requires
        s.wf(),
        i.wf(),
    ensures
        writes_dr(i.opcode) ==> ({
            let t = execute_spec(s, i).0;
            &&& t.cond() == flag_for(t.reg(i.dr))
            &&& (t.cond() == FL_POS || t.cond() == FL_ZRO || t.cond() == FL_NEG)
            &&& (t.cond() == FL_ZRO <==> t.reg(i.dr) == 0)
            &&& (t.cond() == FL_NEG <==> t.reg(i.dr) >= 0x8000)
        }),
        s.awaiting_key is Some ==> ({
            let t = supply_key_spec(s, key);
            &&& t.cond() == flag_for(t.reg(R0))
            &&& t.reg(R0) == key as u16
            &&& (t.cond() == FL_POS || t.cond() == FL_ZRO)
        }),
{
}

/// BR, JMP, JSR, ST, STI, STR and the OUT, PUTS, PUTSP and HALT traps leave COND
/// unchanged.
pub proof fn lemma_flags_kept(s: MachineState, i: DecodedInstruction)
    requires
        s.wf(),
        i.wf(),
        keeps_flags(i),
    ensures
        execute_spec(s, i).0.cond() == s.cond(),
{
}

/// Arithmetic on words is modulo `2^16`: the sum of two words is their sum modulo
/// `2^16`, and adding a sign-extended offset is adding its signed value modulo
/// `2^16`. ADD, LEA and taken branches compute their results this way.
pub proof fn lemma_arithmetic_wraps(s: MachineState, i: DecodedInstruction, a: u16, b: u16)
    requires
        s.wf(),
        i.wf(),
    ensures
        add16(a, b) as int == (a as int + b as int) % 0x10000,
        add16(a, b) as int == (a as int + signed_value(b as int, 16)) % 0x10000,
        i.opcode == Opcode::ADD ==> execute_spec(s, i).0.reg(i.dr) as int == (s.reg(i.sr1) as int
            + operand2(s, i) as int) % 0x10000,
        i.opcode == Opcode::LEA ==> execute_spec(s, i).0.reg(i.dr) as int == (s.pc() as int
            + signed_value(i.offset as int, 16)) % 0x10000,
{
    lemma2_to64();
    assert(add16(a, b) as int == (a as int + signed_value(b as int, 16)) % 0x10000) by {
        if b >= 0x8000 {
            assert((a as int + b as int) % 0x10000 == (a as int + b as int - 0x10000) % 0x10000)
                by (nonlinear_arith);
        }
    }
    let off = i.offset;
    let pc = s.pc();
    assert(add16(pc, off) as int == (pc as int + signed_value(off as int, 16)) % 0x10000) by {
        if off >= 0x8000 {
            assert((pc as int + off as int) % 0x10000 == (pc as int + off as int - 0x10000)
                % 0x10000) by (nonlinear_arith);
        }
    }
}

/// A branch with an empty condition mask does nothing, whatever COND holds.
pub proof fn lemma_branch_never(s: MachineState, i: DecodedInstruction)
    requires
        i.nzp == 0,
    ensures
        br_spec(s, i) == s,
{
    assert(0u16 & s.cond() == 0) by (bit_vector);
}

/// A branch with the full condition mask always branches, once COND holds one of
/// the three flags (that is, after the first instruction that sets it).
pub proof fn lemma_branch_always(s: MachineState, i: DecodedInstruction)
    requires
        i.nzp == 7,
        s.cond() == FL_POS || s.cond() == FL_ZRO || s.cond() == FL_NEG,
    ensures
        br_spec(s, i) == s.set_reg(PC, add16(s.pc(), i.offset)),
{
    let c = s.cond();
    assert(c == 1 || c == 2 || c == 4 ==> 7u16 & c != 0) by (bit_vector);
}

} // verus!
