use lc3_vm::{
    disassemble_program, DecodedInstruction,
    and_opcode, br_opcode, decode_instruction, disassemble, jmp_opcode, jsr_opcode, ld_opcode,
    ldr_opcode, lea_opcode, load_program, mask, not_opcode, sext, st_opcode, sti_opcode,
    str_opcode, trap_opcode, update_flags, LoadError, Opcode, Register, Step, VM,
};

const PC: u16 = 8;
const COND: u16 = 9;

fn run_one(vm: &mut VM, word: u16) -> Step {
    let pc = vm.reg(PC);
    *vm.mem_mut(pc) = word;
    vm.step()
}

fn text(word: u16) -> String {
    disassemble(word).iter().collect::<String>()
}

#[test]
fn sext_extremes_at_one_and_sixteen_bits() {
    assert_eq!(sext(1, 1), 0xFFFF);
    assert_eq!(sext(0, 1), 0);
    assert_eq!(sext(0x8000, 16), 0x8000);
    assert_eq!(sext(0x7FFF, 16), 0x7FFF);
    assert_eq!(sext(0xFFFF, 16), 0xFFFF);
    assert_eq!(sext(0, 16), 0);
}

#[test]
fn sext_keeps_signed_value_of_low_bits() {
    let samples: [u16; 8] = [0, 1, 0x1F, 0x10, 0x0F, 0x1234, 0x8001, 0xFFFF];
    for n in 1..=16usize {
        for &v in samples.iter() {
            let low = v & mask(n as u8);
            let expected: i32 = if (low as u32) >= (1u32 << (n - 1)) {
                low as i32 - (1i32 << n)
            } else {
                low as i32
            };
            assert_eq!(sext(low, n) as i16 as i32, expected, "v={} n={}", v, n);
        }
    }
}

#[test]
fn sext_uses_only_the_low_bits() {
    assert_eq!(sext(0xFFEF, 5), 0x000F);
    assert_eq!(sext(0x0110, 5), 0xFFF0);
}

#[test]
fn mask_values() {
    assert_eq!(mask(1), 1);
    assert_eq!(mask(5), 0x1F);
    assert_eq!(mask(16), 0xFFFF);
}

#[test]
fn decoding_is_deterministic_and_injective() {
    for w in 0..=0xFFFFu16 {
        let a = decode_instruction(w);
        let b = decode_instruction(w);
        assert_eq!(a, b);
        assert!(a.dr < 8 && a.sr1 < 8 && a.sr2 < 8 && a.flag < 2 && a.trap_code < 256);
        let back = ((u16::from(a.opcode)) << 12) | (a.dr << 9) | (a.sr1 << 6) | (a.trap_code & 63);
        assert_eq!(back, w);
    }
}

#[test]
fn encoded_fields_decode_back() {
    for op in 0..16u16 {
        for a in 0..8u16 {
            for b in 0..8u16 {
                for low in [0u16, 1, 7, 31, 32, 63] {
                    let w = (op << 12) | (a << 9) | (b << 6) | low;
                    let d = decode_instruction(w);
                    assert_eq!(u16::from(d.opcode), op);
                    assert_eq!(d.dr, a);
                    assert_eq!(d.nzp, a);
                    assert_eq!(d.sr1, b);
                    assert_eq!(d.base_r, b);
                    assert_eq!(d.sr2, low & 7);
                    assert_eq!(d.imm5, sext(low & 31, 5));
                    assert_eq!(d.trap_code, ((b & 3) << 6) | low);
                }
            }
        }
    }
}

#[test]
fn offsets_by_opcode() {
    // LDR R1, R2, #-2
    assert_eq!(decode_instruction(0x62BE).offset, 0xFFFE);
    // JSR #-1 (11-bit)
    assert_eq!(decode_instruction(0x4FFF).offset, 0xFFFF);
    assert_eq!(decode_instruction(0x4FFF).flag, 1);
    // LD R0, #255 (9-bit, positive)
    assert_eq!(decode_instruction(0x20FF).offset, 0x00FF);
    // ADD immediate: flag is bit 5
    assert_eq!(decode_instruction(0x1262).flag, 1);
    assert_eq!(decode_instruction(0x1262).imm5, 2);
}

#[test]
fn add_immediate_minus_one_gives_negative() {
    let mut vm = VM::init();
    // ADD R2, R3, #-1 with R3 = 0
    lc3_vm::add_opcode(&mut vm, decode_instruction(0b0001_010_011_1_11111));
    assert_eq!(vm.reg(Register::R2.into()), 0xFFFF);
    assert_eq!(vm.reg(COND), 4);
}

#[test]
fn add_register_mode_scenario() {
    let mut vm = VM::init();
    *vm.reg_mut(3) = 4;
    *vm.reg_mut(4) = 5;
    lc3_vm::add_opcode(&mut vm, decode_instruction(0b0001_010_011_000_100));
    assert_eq!(vm.reg(2), 9);
    assert_eq!(vm.reg(COND), 1);
}

#[test]
fn add_immediate_mode_scenario() {
    let mut vm = VM::init();
    *vm.reg_mut(3) = 4;
    lc3_vm::add_opcode(&mut vm, decode_instruction(0b0001_010_011_1_00111));
    assert_eq!(vm.reg(2), 11);
    assert_eq!(vm.reg(COND), 1);
}

#[test]
fn add_wraps_modulo_two_to_the_sixteen() {
    let mut vm = VM::init();
    *vm.reg_mut(1) = 0xFFFF;
    *vm.reg_mut(2) = 2;
    // ADD R0, R1, R2
    lc3_vm::add_opcode(&mut vm, decode_instruction(0b0001_000_001_000_010));
    assert_eq!(vm.reg(0), 1);
    assert_eq!(vm.reg(COND), 1);
}

#[test]
fn branch_with_empty_mask_never_branches() {
    for cond in [0u16, 1, 2, 4] {
        let mut vm = VM::init();
        *vm.reg_mut(PC) = 0x3000;
        *vm.reg_mut(COND) = cond;
        br_opcode(&mut vm, decode_instruction(0b0000_000_000000101));
        assert_eq!(vm.reg(PC), 0x3000);
        assert_eq!(vm.reg(COND), cond);
    }
}

#[test]
fn branch_with_full_mask_always_branches() {
    for cond in [1u16, 2, 4] {
        let mut vm = VM::init();
        *vm.reg_mut(PC) = 0x3000;
        *vm.reg_mut(COND) = cond;
        br_opcode(&mut vm, decode_instruction(0b0000_111_111111110));
        assert_eq!(vm.reg(PC), 0x2FFE);
        assert_eq!(vm.reg(COND), cond);
    }
}

#[test]
fn branch_follows_the_mask() {
    let mut vm = VM::init();
    *vm.reg_mut(PC) = 0x3000;
    *vm.reg_mut(COND) = 2;
    // BRn: not taken on ZERO
    br_opcode(&mut vm, decode_instruction(0b0000_100_000000011));
    assert_eq!(vm.reg(PC), 0x3000);
    // BRz: taken
    br_opcode(&mut vm, decode_instruction(0b0000_010_000000011));
    assert_eq!(vm.reg(PC), 0x3003);
}

#[test]
fn branch_target_wraps_around_memory() {
    let mut vm = VM::init();
    *vm.reg_mut(PC) = 0xFFFF;
    *vm.reg_mut(COND) = 1;
    br_opcode(&mut vm, decode_instruction(0b0000_001_000000001));
    assert_eq!(vm.reg(PC), 0);
}

#[test]
fn and_not_and_flags() {
    let mut vm = VM::init();
    *vm.reg_mut(1) = 0x1234;
    *vm.reg_mut(2) = 0x00FF;
    // AND R1, R1, #0
    and_opcode(&mut vm, decode_instruction(0x5260));
    assert_eq!(vm.reg(1), 0);
    assert_eq!(vm.reg(COND), 2);
    // NOT R1, R2
    not_opcode(&mut vm, decode_instruction(0x92BF));
    assert_eq!(vm.reg(1), 0xFF00);
    assert_eq!(vm.reg(COND), 4);
    // AND R3, R1, R2 (register mode)
    *vm.reg_mut(1) = 0x0F0F;
    and_opcode(&mut vm, decode_instruction(0b0101_011_001_000_010));
    assert_eq!(vm.reg(3), 0x000F);
    assert_eq!(vm.reg(COND), 1);
}

#[test]
fn update_flags_reads_the_sign() {
    let mut vm = VM::init();
    for (v, f) in [(0u16, 2u16), (1, 1), (0x7FFF, 1), (0x8000, 4), (0xFFFF, 4)] {
        *vm.reg_mut(5) = v;
        update_flags(&mut vm, 5);
        assert_eq!(vm.reg(COND), f);
    }
}

#[test]
fn loads_and_lea() {
    let mut vm = VM::init();
    *vm.reg_mut(PC) = 0x3000;
    *vm.mem_mut(0x2FFF) = 0x8001;
    // LD R1, #-1
    ld_opcode(&mut vm, decode_instruction(0x23FF));
    assert_eq!(vm.reg(1), 0x8001);
    assert_eq!(vm.reg(COND), 4);
    // LDR R3, R2, #-2 with R2 = 0x4002
    *vm.reg_mut(2) = 0x4002;
    *vm.mem_mut(0x4000) = 7;
    ldr_opcode(&mut vm, decode_instruction(0b0110_011_010_111110));
    assert_eq!(vm.reg(3), 7);
    assert_eq!(vm.reg(COND), 1);
    // LEA R0, #4
    lea_opcode(&mut vm, decode_instruction(0xE004));
    assert_eq!(vm.reg(0), 0x3004);
    assert_eq!(vm.reg(COND), 1);
}

#[test]
fn stores_keep_flags() {
    let mut vm = VM::init();
    *vm.reg_mut(PC) = 0x3000;
    *vm.reg_mut(COND) = 4;
    *vm.reg_mut(1) = 7;
    // ST R1, #2
    st_opcode(&mut vm, decode_instruction(0x3202));
    assert_eq!(vm.mem(0x3002), 7);
    // STI R1, #2 through the pointer now set at 0x3002
    *vm.mem_mut(0x3002) = 0x4000;
    sti_opcode(&mut vm, decode_instruction(0xB202));
    assert_eq!(vm.mem(0x4000), 7);
    // STR R1, R2, #1
    *vm.reg_mut(2) = 0x5000;
    str_opcode(&mut vm, decode_instruction(0x7281));
    assert_eq!(vm.mem(0x5001), 7);
    assert_eq!(vm.reg(COND), 4);
}

#[test]
fn jumps_and_subroutines() {
    let mut vm = VM::init();
    *vm.reg_mut(PC) = 0x3000;
    *vm.reg_mut(COND) = 1;
    // JSR #5
    jsr_opcode(&mut vm, decode_instruction(0x4805));
    assert_eq!(vm.reg(7), 0x3000);
    assert_eq!(vm.reg(PC), 0x3005);
    // JSRR R3
    *vm.reg_mut(3) = 0x4000;
    jsr_opcode(&mut vm, decode_instruction(0x40C0));
    assert_eq!(vm.reg(7), 0x3005);
    assert_eq!(vm.reg(PC), 0x4000);
    // JMP R7 (RET)
    jmp_opcode(&mut vm, decode_instruction(0xC1C0));
    assert_eq!(vm.reg(PC), 0x3005);
    assert_eq!(vm.reg(COND), 1);
}

#[test]
fn ldi_through_a_fetch_cycle() {
    let mut vm = VM::init();
    *vm.mem_mut(5) = 42;
    *vm.mem_mut(10) = 5;
    *vm.reg_mut(PC) = 2;
    // LDI R2, #7: after the fetch PC is 3, and 3 + 7 = 10
    assert_eq!(run_one(&mut vm, 0b1010_010_000000111), Step::Continue);
    assert_eq!(vm.reg(PC), 3);
    assert_eq!(vm.reg(2), 42);
    assert_eq!(vm.reg(COND), 1);
}

#[test]
fn puts_writes_one_character_per_word() {
    let mut vm = VM::init();
    *vm.reg_mut(0) = 0x3000;
    *vm.mem_mut(0x3000) = 'H' as u16;
    *vm.mem_mut(0x3001) = 'i' as u16;
    *vm.mem_mut(0x3002) = 0;
    *vm.reg_mut(COND) = 2;
    assert_eq!(trap_opcode(&mut vm, decode_instruction(0xF022)), Step::Continue);
    assert_eq!(vm.take_output(), b"Hi".to_vec());
    assert!(vm.output().is_empty());
    assert_eq!(vm.reg(COND), 2);
}

#[test]
fn putsp_writes_two_characters_per_word() {
    let mut vm = VM::init();
    *vm.reg_mut(0) = 0x3000;
    *vm.mem_mut(0x3000) = 0x6948;
    *vm.mem_mut(0x3001) = 0x0021;
    assert_eq!(trap_opcode(&mut vm, decode_instruction(0xF024)), Step::Continue);
    assert_eq!(vm.take_output(), vec![b'H', b'i', b'!', 0]);
}

#[test]
fn out_writes_the_low_byte_of_r0() {
    let mut vm = VM::init();
    *vm.reg_mut(0) = 0x0141;
    assert_eq!(trap_opcode(&mut vm, decode_instruction(0xF021)), Step::Continue);
    assert_eq!(vm.output().clone(), vec![b'A']);
}

#[test]
fn getc_waits_for_a_key() {
    let mut vm = VM::init();
    assert_eq!(trap_opcode(&mut vm, decode_instruction(0xF020)), Step::NeedKey);
    assert!(vm.is_awaiting_key());
    // a suspended machine does not fetch
    assert_eq!(vm.step(), Step::NeedKey);
    assert_eq!(vm.reg(PC), 0);
    vm.supply_key(b'x');
    assert!(!vm.is_awaiting_key());
    assert_eq!(vm.reg(0), 120);
    assert_eq!(vm.reg(COND), 1);
    assert!(vm.output().is_empty());
}

#[test]
fn getc_takes_a_latched_key() {
    let mut vm = VM::init();
    vm.supply_key(b'k');
    assert!(vm.has_key());
    assert_eq!(trap_opcode(&mut vm, decode_instruction(0xF020)), Step::Continue);
    assert!(!vm.has_key());
    assert_eq!(vm.reg(0), 107);
}

#[test]
fn in_prompts_and_echoes() {
    let mut vm = VM::init();
    assert_eq!(trap_opcode(&mut vm, decode_instruction(0xF023)), Step::NeedKey);
    assert_eq!(vm.take_output(), b"Enter a character: ".to_vec());
    vm.supply_key(b'q');
    assert_eq!(vm.reg(0), 113);
    assert_eq!(vm.take_output(), b"q".to_vec());
}

#[test]
fn keyboard_status_reads_poll_the_latched_key() {
    let mut vm = VM::init();
    *vm.reg_mut(2) = 0xFE00;
    // LDR R1, R2, #0 with no key
    ldr_opcode(&mut vm, decode_instruction(0x6280));
    assert_eq!(vm.reg(1), 0);
    vm.supply_key(b'a');
    ldr_opcode(&mut vm, decode_instruction(0x6280));
    assert_eq!(vm.reg(1), 0x8000);
    assert_eq!(vm.mem(0xFE02), 97);
    assert!(!vm.has_key());
    // LDR R1, R2, #2 reads the data register
    ldr_opcode(&mut vm, decode_instruction(0x6282));
    assert_eq!(vm.reg(1), 97);
}

#[test]
fn halt_stops_the_run_loop() {
    let mut vm = VM::init();
    *vm.reg_mut(PC) = 0x3000;
    *vm.mem_mut(0x3000) = 0x1261; // ADD R1, R1, #1
    *vm.mem_mut(0x3001) = 0xF025; // HALT
    *vm.mem_mut(0x3002) = 0x1261;
    assert_eq!(vm.run(100), Step::Halted);
    assert!(!vm.is_running());
    assert_eq!(vm.reg(1), 1);
    assert_eq!(vm.reg(PC), 0x3002);
}

#[test]
fn run_stops_after_its_budget() {
    let mut vm = VM::init();
    *vm.reg_mut(PC) = 0x3000;
    *vm.mem_mut(0x3000) = 0x1261; // ADD R1, R1, #1
    *vm.mem_mut(0x3001) = 0x0FFE; // BRnzp #-2
    assert_eq!(vm.run(5), Step::Continue);
    assert!(vm.is_running());
    assert_eq!(vm.reg(1), 3);
}

#[test]
fn faults_stop_the_machine() {
    let mut vm = VM::init();
    vm.run(0);
    assert_eq!(run_one(&mut vm, 0x8000), Step::IllegalOpcode(Opcode::RTI));
    assert!(!vm.is_running());
    let mut vm = VM::init();
    assert_eq!(run_one(&mut vm, 0xD000), Step::IllegalOpcode(Opcode::RES));
    let mut vm = VM::init();
    assert_eq!(run_one(&mut vm, 0xF0FF), Step::UnknownTrap(0xFF));
    assert!(!vm.is_running());
}

#[test]
fn load_and_run_halts_after_one_cycle() {
    let vm = load_program(&vec![0x30, 0x00, 0xF0, 0x25]);
    let mut vm = match vm {
        Ok(vm) => vm,
        Err(e) => panic!("load failed: {:?}", e),
    };
    assert_eq!(vm.reg(PC), 0x3000);
    assert_eq!(vm.mem(0x3000), 0xF025);
    assert_eq!(vm.run(10), Step::Halted);
    assert_eq!(vm.reg(PC), 0x3001);
}

#[test]
fn loader_errors() {
    assert!(matches!(load_program(&vec![]), Err(LoadError::Empty)));
    assert!(matches!(load_program(&vec![0x30]), Err(LoadError::OddLength)));
    assert!(matches!(load_program(&vec![0x30, 0x00, 0x12]), Err(LoadError::OddLength)));
}

#[test]
fn loader_accepts_a_bare_origin_and_wraps() {
    let vm = load_program(&vec![0x30, 0x00]).ok().unwrap();
    assert_eq!(vm.reg(PC), 0x3000);
    assert_eq!(vm.mem(0x3000), 0);
    let vm = load_program(&vec![0xFF, 0xFF, 0x12, 0x34, 0xAB, 0xCD]).ok().unwrap();
    assert_eq!(vm.reg(PC), 0xFFFF);
    assert_eq!(vm.mem(0xFFFF), 0x1234);
    assert_eq!(vm.mem(0), 0xABCD);
    assert_eq!(vm.reg(COND), 0);
}

#[test]
fn disassembly_lines() {
    assert_eq!(text(0x1283), "ADD R1 R2 R3");
    assert_eq!(text(0x1262), "ADD R1 R1 2");
    assert_eq!(text(0x14FF), "ADD R2 R3 65535");
    assert_eq!(text(0x5260), "AND R1 R1 0");
    assert_eq!(text(0x0403), "BR 10 3");
    assert_eq!(text(0x0E01), "BR 111 1");
    assert_eq!(text(0x40C0), "JSRR R3");
    assert_eq!(text(0x4805), "JSR 5");
    assert_eq!(text(0x62BE), "LDR R1 R2 65534");
    assert_eq!(text(0x7281), "STR R1 R2 1");
    assert_eq!(text(0x92BF), "NOT R1 R2");
    assert_eq!(text(0xC1C0), "JMP R7");
    assert_eq!(text(0xE004), "LEA R0 4");
    assert_eq!(text(0x23FF), "LD R1 65535");
    assert_eq!(text(0xF025), "TRAP HALT");
    assert_eq!(text(0xF024), "TRAP PUTSp");
    assert_eq!(text(0xF020), "TRAP GETC");
    assert_eq!(text(0xF026), "TRAP unrecognized");
    assert_eq!(text(0x8000), "RTI unused");
    assert_eq!(text(0xD000), "RES unused");
}

#[test]
fn opcode_names_and_indices() {
    assert_eq!(Opcode::try_from_u16(15), Some(Opcode::TRAP));
    assert_eq!(Opcode::try_from_u16(16), None);
    assert_eq!(u16::from(Opcode::LEA), 14);
    assert_eq!(Opcode::JSR.mnemonic(), "JSR");
    assert_eq!(u16::from(Register::COND), 9);
}

#[test]
fn full_mask_branch_waits_for_a_first_flag() {
    // at start-up COND is zero, so even BRnzp falls through
    let mut vm = VM::init();
    *vm.reg_mut(PC) = 0x3000;
    br_opcode(&mut vm, decode_instruction(0b0000_111_000000100));
    assert_eq!(vm.reg(PC), 0x3000);
}

#[test]
fn program_disassembly() {
    let lines = disassemble_program(&vec![0x30, 0x00, 0x12, 0x83, 0xF0, 0x25]).ok().unwrap();
    let lines: Vec<String> = lines.iter().map(|l| l.iter().collect::<String>()).collect();
    assert_eq!(lines, vec!["ADD R1 R2 R3".to_string(), "TRAP HALT".to_string()]);
    assert!(matches!(disassemble_program(&vec![]), Err(LoadError::Empty)));
    assert!(matches!(disassemble_program(&vec![1, 2, 3]), Err(LoadError::OddLength)));
    assert_eq!(disassemble_program(&vec![0x30, 0x00]).ok().unwrap().len(), 0);
}

#[test]
fn blank_decoded_instruction() {
    let d = DecodedInstruction::init(Opcode::NOT);
    assert_eq!(d.opcode, Opcode::NOT);
    assert_eq!((d.dr, d.sr1, d.offset, d.flag), (0, 0, 0, 0));
    assert_eq!(Opcode::from_bits(9), Opcode::NOT);
}
