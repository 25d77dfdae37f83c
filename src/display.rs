//! The disassembler: one line of text (a sequence of characters) per instruction word.
use crate::decode_instruction::{decode_instruction, decode_spec, DecodedInstruction};
use crate::loader::{image_word, word_at, LoadError};
use crate::opcodes::{TRAP_GETC, TRAP_HALT, TRAP_IN, TRAP_OUT, TRAP_PUTS, TRAP_PUTSP};
use crate::vm::Opcode;
use vstd::prelude::*;

verus! {

/// The digits of `n` in base `base` (2 to 10), most significant first.
pub open spec fn digits(n: nat, base: nat) -> Seq<char>
    decreases n
    via digits_decreases
{
    if n < base || base < 2 {
        seq![(48 + n % 10) as char]
    } else {
        digits(n / base, base) + seq![(48 + n % base) as char]
    }
}

#[via_fn]
proof fn digits_decreases(n: nat, base: nat) {
    if !(n < base || base < 2) {
        vstd::arithmetic::div_mod::lemma_div_decreases(n as int, base as int);
    }
}

/// The decimal text of a word.
pub open spec fn decimal(v: u16) -> Seq<char> {
    digits(v as nat, 10)
}

/// The register name `R<i>`.
pub open spec fn reg_name(i: u16) -> Seq<char> {
    "R"@ + digits(i as nat, 10)
}

/// The mnemonic of an opcode.
pub open spec fn opcode_name(op: Opcode) -> Seq<char> {
    match op {
        Opcode::BR => "BR"@,
        Opcode::ADD => "ADD"@,
        Opcode::LD => "LD"@,
        Opcode::ST => "ST"@,
        Opcode::JSR => "JSR"@,
        Opcode::AND => "AND"@,
        Opcode::LDR => "LDR"@,
        Opcode::STR => "STR"@,
        Opcode::RTI => "RTI"@,
        Opcode::NOT => "NOT"@,
        Opcode::LDI => "LDI"@,
        Opcode::STI => "STI"@,
        Opcode::JMP => "JMP"@,
        Opcode::RES => "RES"@,
        Opcode::LEA => "LEA"@,
        Opcode::TRAP => "TRAP"@,
    }
}

/// The name of a trap service routine, or `unrecognized`.
pub open spec fn trap_name(code: u16) -> Seq<char> {
    if code == TRAP_GETC {
        "GETC"@
    } else if code == TRAP_OUT {
        "OUT"@
    } else if code == TRAP_PUTS {
        "PUTS"@
    } else if code == TRAP_IN {
        "IN"@
    } else if code == TRAP_PUTSP {
        "PUTSp"@
    } else if code == TRAP_HALT {
        "HALT"@
    } else {
        "unrecognized"@
    }
}

/// The words of a line, joined by single spaces.
pub open spec fn join(parts: Seq<Seq<char>>) -> Seq<char>
    decreases parts.len(),
{
    if parts.len() == 0 {
        Seq::empty()
    } else if parts.len() == 1 {
        parts[0]
    } else {
        join(parts.drop_last()) + " "@ + parts.last()
    }
}

/// The disassembly line of a decoded instruction.
pub open spec fn disassembly(i: DecodedInstruction) -> Seq<char> {
    let op = opcode_name(i.opcode);
    match i.opcode {
        Opcode::BR => join(seq![op, digits(i.nzp as nat, 2), decimal(i.offset)]),
        Opcode::ADD | Opcode::AND => join(
            seq![
                op,
                reg_name(i.dr),
                reg_name(i.sr1),
                if i.flag == 0 {
                    reg_name(i.sr2)
                } else {
                    decimal(i.imm5)
                },
            ],
        ),
        Opcode::LD | Opcode::LDI | Opcode::ST | Opcode::STI | Opcode::LEA => join(
            seq![op, reg_name(i.dr), decimal(i.offset)],
        ),
        Opcode::JSR => if i.flag == 1 {
            join(seq![op, decimal(i.offset)])
        } else {
            join(seq!["JSRR"@, reg_name(i.base_r)])
        },
        Opcode::LDR | Opcode::STR => join(
            seq![op, reg_name(i.dr), reg_name(i.base_r), decimal(i.offset)],
        ),
        Opcode::NOT => join(seq![op, reg_name(i.dr), reg_name(i.sr1)]),
        Opcode::JMP => join(seq![op, reg_name(i.base_r)]),
        Opcode::TRAP => join(seq![op, trap_name(i.trap_code)]),
        Opcode::RTI | Opcode::RES => join(seq![op, "unused"@]),
    }
}

/// Appends `n` in base `base` to `out`.
fn push_digits(out: &mut Vec<char>, n: u16, base: u16)
    requires
        2 <= base <= 10,
    ensures
        final(out)@ == old(out)@ + digits(n as nat, base as nat),
    decreases n,
{
    if n >= base {
        proof {
            vstd::arithmetic::div_mod::lemma_div_decreases(n as int, base as int);
        }
        push_digits(out, n / base, base);
    }
    let d = (n % base) as u8;
    out.push((48 + d) as char);
    proof {
        let ghost s = digits(n as nat, base as nat);
        if n >= base {
            assert(final(out)@ =~= old(out)@ + s);
        } else {
            vstd::arithmetic::div_mod::lemma_small_mod(n as nat, base as nat);
            vstd::arithmetic::div_mod::lemma_small_mod(n as nat, 10);
            assert(final(out)@ =~= old(out)@ + s);
        }
    }
}

/// Appends a space and then `n` in base `base`.
fn push_number(out: &mut Vec<char>, n: u16, base: u16)
    requires
        2 <= base <= 10,
    ensures
        final(out)@ == old(out)@ + " "@ + digits(n as nat, base as nat),
{
    proof {
        reveal_strlit(" ");
    }
    out.push(' ');
    push_digits(out, n, base);
    assert(final(out)@ =~= old(out)@ + " "@ + digits(n as nat, base as nat));
}

/// Appends a space and then the name of register `i`.
fn push_reg(out: &mut Vec<char>, i: u16)
    ensures
        final(out)@ == old(out)@ + " "@ + reg_name(i),
{
    proof {
        reveal_strlit(" ");
        reveal_strlit("R");
    }
    out.push(' ');
    out.push('R');
    push_digits(out, i, 10);
    assert(final(out)@ =~= old(out)@ + " "@ + reg_name(i));
}

/// Appends the bytes of `text`.
fn push_text(out: &mut Vec<char>, text: &str)
    ensures
        final(out)@ == old(out)@ + text@,
{
    let n = text.unicode_len();
    let mut k: usize = 0;
    while k < n
        invariant
            n == text@.len(),
            k <= n,
            out@ == old(out)@ + text@.take(k as int),
        decreases n - k,
    {
        out.push(text.get_char(k));
        assert(text@.take(k as int) + seq![text@[k as int]] =~= text@.take(k + 1));
        assert(old(out)@ + text@.take(k as int) + seq![text@[k as int]] =~= old(out)@ + text@.take(
            k + 1,
        ));
        k = k + 1;
    }
    assert(text@.take(k as int) =~= text@);
}

proof fn lemma_join2(a: Seq<char>, b: Seq<char>)
    ensures
        join(seq![a, b]) == a + " "@ + b,
{
    assert(seq![a, b].drop_last() =~= seq![a]);
    assert(join(seq![a]) == a);
    assert(seq![a, b].last() == b);
}

proof fn lemma_join3(a: Seq<char>, b: Seq<char>, c: Seq<char>)
    ensures
        join(seq![a, b, c]) == a + " "@ + b + " "@ + c,
{
    assert(seq![a, b, c].drop_last() =~= seq![a, b]);
    lemma_join2(a, b);
}

proof fn lemma_join4(a: Seq<char>, b: Seq<char>, c: Seq<char>, d: Seq<char>)
    ensures
        join(seq![a, b, c, d]) == a + " "@ + b + " "@ + c + " "@ + d,
{
    assert(seq![a, b, c, d].drop_last() =~= seq![a, b, c]);
    lemma_join3(a, b, c);
}

impl Opcode {
    /// The mnemonic of this opcode.
    pub fn mnemonic(&self) -> (r: &'static str)
        ensures
            r@ == opcode_name(*self),
    {
        match self {
            Opcode::BR => "BR",
            Opcode::ADD => "ADD",
            Opcode::LD => "LD",
            Opcode::ST => "ST",
            Opcode::JSR => "JSR",
            Opcode::AND => "AND",
            Opcode::LDR => "LDR",
            Opcode::STR => "STR",
            Opcode::RTI => "RTI",
            Opcode::NOT => "NOT",
            Opcode::LDI => "LDI",
            Opcode::STI => "STI",
            Opcode::JMP => "JMP",
            Opcode::RES => "RES",
            Opcode::LEA => "LEA",
            Opcode::TRAP => "TRAP",
        }
    }
}

/// The name of the trap routine with vector `code`, or `unrecognized`.
fn trap_routine_name(code: u16) -> (r: &'static str)
    ensures
        r@ == trap_name(code),
{
    if code == TRAP_GETC {
        "GETC"
    } else if code == TRAP_OUT {
        "OUT"
    } else if code == TRAP_PUTS {
        "PUTS"
    } else if code == TRAP_IN {
        "IN"
    } else if code == TRAP_PUTSP {
        "PUTSp"
    } else if code == TRAP_HALT {
        "HALT"
    } else {
        "unrecognized"
    }
}

impl DecodedInstruction {
    /// The disassembly line of this instruction.
    pub fn to_text(&self) -> (r: Vec<char>)
        ensures
            r@ == disassembly(*self),
    {
        let mut out: Vec<char> = Vec::new();
        let i = *self;
        let ghost op = opcode_name(i.opcode);
        proof {
            reveal_strlit(" ");
        }
        match i.opcode {
            Opcode::BR => {
                push_text(&mut out, i.opcode.mnemonic());
                push_number(&mut out, i.nzp, 2);
                push_number(&mut out, i.offset, 10);
                proof {
                    lemma_join3(op, digits(i.nzp as nat, 2), decimal(i.offset));
                }
            },
            Opcode::ADD | Opcode::AND => {
                push_text(&mut out, i.opcode.mnemonic());
                push_reg(&mut out, i.dr);
                push_reg(&mut out, i.sr1);
                if i.flag == 0 {
                    push_reg(&mut out, i.sr2);
                } else {
                    push_number(&mut out, i.imm5, 10);
                }
                proof {
                    lemma_join4(
                        op,
                        reg_name(i.dr),
                        reg_name(i.sr1),
                        if i.flag == 0 {
                            reg_name(i.sr2)
                        } else {
                            decimal(i.imm5)
                        },
                    );
                }
            },
            Opcode::LD | Opcode::LDI | Opcode::ST | Opcode::STI | Opcode::LEA => {
                push_text(&mut out, i.opcode.mnemonic());
                push_reg(&mut out, i.dr);
                push_number(&mut out, i.offset, 10);
                proof {
                    lemma_join3(op, reg_name(i.dr), decimal(i.offset));
                }
            },
            Opcode::JSR => {
                if i.flag == 1 {
                    push_text(&mut out, i.opcode.mnemonic());
                    push_number(&mut out, i.offset, 10);
                    proof {
                        lemma_join2(op, decimal(i.offset));
                    }
                } else {
                    push_text(&mut out, "JSRR");
                    push_reg(&mut out, i.base_r);
                    proof {
                        lemma_join2("JSRR"@, reg_name(i.base_r));
                    }
                }
            },
            Opcode::LDR | Opcode::STR => {
                push_text(&mut out, i.opcode.mnemonic());
                push_reg(&mut out, i.dr);
                push_reg(&mut out, i.base_r);
                push_number(&mut out, i.offset, 10);
                proof {
                    lemma_join4(op, reg_name(i.dr), reg_name(i.base_r), decimal(i.offset));
                }
            },
            Opcode::NOT => {
                push_text(&mut out, i.opcode.mnemonic());
                push_reg(&mut out, i.dr);
                push_reg(&mut out, i.sr1);
                proof {
                    lemma_join3(op, reg_name(i.dr), reg_name(i.sr1));
                }
            },
            Opcode::JMP => {
                push_text(&mut out, i.opcode.mnemonic());
                push_reg(&mut out, i.base_r);
                proof {
                    lemma_join2(op, reg_name(i.base_r));
                }
            },
            Opcode::TRAP => {
                push_text(&mut out, i.opcode.mnemonic());
                push_text(&mut out, " ");
                push_text(&mut out, trap_routine_name(i.trap_code));
                proof {
                    lemma_join2(op, trap_name(i.trap_code));
                }
            },
            Opcode::RTI | Opcode::RES => {
                push_text(&mut out, i.opcode.mnemonic());
                push_text(&mut out, " unused");
                proof {
                    reveal_strlit(" unused");
                    reveal_strlit("unused");
                    assert(" unused"@ =~= " "@ + "unused"@);
                    lemma_join2(op, "unused"@);
                }
            },
        }
        assert(out@ =~= disassembly(*self));
        out
    }
}

/// The disassembly line of an instruction word.
pub fn disassemble(instruction: u16) -> (r: Vec<char>)
    ensures
        r@ == disassembly(decode_spec(instruction)),
{
    decode_instruction(instruction).to_text()
}

/// The disassembly of an object image: one line for each word after the origin,
/// in order. An empty image and one of odd length are refused as the loader
/// refuses them.
pub fn disassemble_program(bytes: &Vec<u8>) -> (r: Result<Vec<Vec<char>>, LoadError>)
    ensures
        bytes.len() == 0 ==> r == Err::<Vec<Vec<char>>, LoadError>(LoadError::Empty),
        bytes.len() % 2 == 1 ==> r == Err::<Vec<Vec<char>>, LoadError>(LoadError::OddLength),
        bytes.len() > 0 && bytes.len() % 2 == 0 ==> (r matches Ok(lines) && lines.len()
            == bytes.len() / 2 - 1 && forall|k: int|
            0 <= k < lines.len() ==> #[trigger] lines[k]@ == disassembly(
                decode_spec(image_word(bytes@, k + 1)),
            )),
{
    if bytes.len() == 0 {
        return Err(LoadError::Empty);
    }
    if bytes.len() % 2 == 1 {
        return Err(LoadError::OddLength);
    }
    let n = bytes.len() / 2;
    let mut lines: Vec<Vec<char>> = Vec::new();
    let mut i: usize = 1;
    while i < n
        invariant
            1 <= i <= n,
            n == bytes.len() / 2,
            lines.len() == i - 1,
            forall|k: int|
                0 <= k < lines.len() ==> #[trigger] lines[k]@ == disassembly(
                    decode_spec(image_word(bytes@, k + 1)),
                ),
        decreases n - i,
    {
        lines.push(disassemble(word_at(bytes, i)));
        i = i + 1;
    }
    Ok(lines)
}

} // verus!
