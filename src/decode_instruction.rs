//! The instruction decoder: one 16-bit word to a record of every field an
//! opcode may use.
use crate::bits::{field, low_mask, mask, sext, sext_spec};
use crate::vm::{opcode_index, opcode_of, Opcode};
use vstd::arithmetic::power2::lemma2_to64;
use vstd::prelude::*;

verus! {

/// A decoded instruction. Every field is extracted from every word; a handler reads
/// only those its opcode uses. `nzp` aliases `dr` (bits 11..9) and `base_r` aliases
/// `sr1` (bits 8..6). Stores take their source register from `dr`.
#[derive(PartialEq, Eq, Structural, Debug, Clone, Copy)]
pub struct DecodedInstruction {
    pub opcode: Opcode,
    /// destination (or store source) register, bits 11..9
    pub dr: u16,
    /// first source register, bits 8..6
    pub sr1: u16,
    /// second source register, bits 2..0
    pub sr2: u16,
    /// 5-bit immediate, sign-extended
    pub imm5: u16,
    /// branch condition mask, bits 11..9
    pub nzp: u16,
    /// base register, bits 8..6
    pub base_r: u16,
    /// PC or base offset, sign-extended from 6, 9 or 11 bits by opcode
    pub offset: u16,
    /// trap vector, bits 7..0
    pub trap_code: u16,
    /// mode bit: bit 5 for ADD and AND, bit 11 otherwise
    pub flag: u16,
}

impl DecodedInstruction {
    /// The ranges the decoder guarantees for the register, mask, flag and trap fields.
    pub open spec fn wf(self) -> bool {
        &&& self.dr < 8
        &&& self.sr1 < 8
        &&& self.sr2 < 8
        &&& self.nzp < 8
        &&& self.base_r < 8
        &&& self.flag < 2
        &&& self.trap_code < 256
    }

    /// A record with the given opcode and every other field zero.
    pub fn init(opcode: Opcode) -> (r: DecodedInstruction)
        ensures
            r == (DecodedInstruction {
                opcode,
                dr: 0,
                sr1: 0,
                sr2: 0,
                imm5: 0,
                nzp: 0,
                base_r: 0,
                offset: 0,
                trap_code: 0,
                flag: 0,
            }),
    {
        DecodedInstruction {
            opcode,
            dr: 0,
            sr1: 0,
            sr2: 0,
            imm5: 0,
            nzp: 0,
            base_r: 0,
            offset: 0,
            trap_code: 0,
            flag: 0,
        }
    }
}

/// The offset field of word `w` under opcode `op`: 6 bits for LDR and STR, 11 bits
/// for JSR, 9 bits otherwise, sign-extended.
pub open spec fn offset_of(op: Opcode, w: u16) -> u16 {
    match op {
        Opcode::STR | Opcode::LDR => sext_spec(field(w, 0, 6), 6),
        Opcode::JSR => sext_spec(field(w, 0, 11), 11),
        _ => sext_spec(field(w, 0, 9), 9),
    }
}

/// The mode bit of word `w` under opcode `op`: bit 5 for ADD and AND, bit 11 otherwise.
pub open spec fn flag_of(op: Opcode, w: u16) -> u16 {
    match op {
        Opcode::ADD | Opcode::AND => field(w, 5, 1),
        _ => field(w, 11, 1),
    }
}

/// The decoding of instruction word `w`.
pub open spec fn decode_spec(w: u16) -> DecodedInstruction {
    let op = opcode_of(field(w, 12, 4));
    DecodedInstruction {
        opcode: op,
        dr: field(w, 9, 3),
        sr1: field(w, 6, 3),
        sr2: field(w, 0, 3),
        imm5: sext_spec(field(w, 0, 5), 5),
        nzp: field(w, 9, 3),
        base_r: field(w, 6, 3),
        offset: offset_of(op, w),
        trap_code: field(w, 0, 8),
        flag: flag_of(op, w),
    }
}

proof fn lemma_and_bounded(x: u16, m: u16)
    by (bit_vector)
    ensures
        x & m <= m,
{
}

/// Every field of a decoded word lies in the range its width allows.
pub proof fn lemma_decode_wf(w: u16)
    ensures
        decode_spec(w).wf(),
        field(w, 12, 4) < 16,
{
    lemma2_to64();
    lemma_and_bounded(w >> 12, low_mask(4));
    lemma_and_bounded(w >> 9, low_mask(3));
    lemma_and_bounded(w >> 6, low_mask(3));
    lemma_and_bounded(w >> 0, low_mask(3));
    lemma_and_bounded(w >> 0, low_mask(8));
    lemma_and_bounded(w >> 5, low_mask(1));
    lemma_and_bounded(w >> 11, low_mask(1));
}

/// Decodes one instruction word. Total: every 16-bit word decodes.
pub fn decode_instruction(instruction: u16) -> (r: DecodedInstruction)
    ensures
        r == decode_spec(instruction),
        r.wf(),
{
    proof {
        lemma_decode_wf(instruction);
        assert(instruction >> 0u16 == instruction) by (bit_vector);
    }
    let opcode = Opcode::from_bits((instruction >> 12) & mask(4));
    let mut decoded_instruction = DecodedInstruction::init(opcode);

    decoded_instruction.dr = (instruction >> 9) & mask(3);
    decoded_instruction.sr1 = (instruction >> 6) & mask(3);
    decoded_instruction.sr2 = instruction & mask(3);
    decoded_instruction.imm5 = sext(instruction & mask(5), 5);
    decoded_instruction.nzp = (instruction >> 9) & mask(3);
    decoded_instruction.base_r = (instruction >> 6) & mask(3);
    decoded_instruction.trap_code = instruction & mask(8);
    decoded_instruction.offset = match opcode {
        Opcode::STR | Opcode::LDR => sext(instruction & mask(6), 6),
        Opcode::JSR => sext(instruction & mask(11), 11),
        _ => sext(instruction & mask(9), 9),
    };
    decoded_instruction.flag = match opcode {
        Opcode::ADD | Opcode::AND => (instruction >> 5) & mask(1),
        _ => (instruction >> 11) & mask(1),
    };
    decoded_instruction
}

/// The word with opcode bits `op`, bits 11..9 `a`, bits 8..6 `b` and bits 5..0 `low`.
pub open spec fn encode_word(op: u16, a: u16, b: u16, low: u16) -> u16 {
    (op << 12u16) | (a << 9u16) | (b << 6u16) | low
}

proof fn lemma_encode_fields(op: u16, a: u16, b: u16, low: u16)
    by (bit_vector)
    requires
        op < 16,
        a < 8,
        b < 8,
        low < 64,
    ensures
        (encode_word(op, a, b, low) >> 12u16) & 15 == op,
        (encode_word(op, a, b, low) >> 9u16) & 7 == a,
        (encode_word(op, a, b, low) >> 6u16) & 7 == b,
        (encode_word(op, a, b, low) >> 0u16) & 7 == low & 7,
        (encode_word(op, a, b, low) >> 0u16) & 31 == low & 31,
        (encode_word(op, a, b, low) >> 0u16) & 63 == low,
        (encode_word(op, a, b, low) >> 0u16) & 255 == ((b & 3) << 6u16) | low,
        (encode_word(op, a, b, low) >> 0u16) & 511 == (b << 6u16) | low,
        (encode_word(op, a, b, low) >> 0u16) & 2047 == ((a & 3) << 9u16) | (b << 6u16) | low,
        (encode_word(op, a, b, low) >> 5u16) & 1 == low >> 5u16,
        (encode_word(op, a, b, low) >> 11u16) & 1 == a >> 2u16,
{
}

proof fn lemma_small_masks()
    ensures
        low_mask(1) == 1,
        low_mask(3) == 7,
        low_mask(4) == 15,
        low_mask(5) == 31,
        low_mask(6) == 63,
        low_mask(8) == 255,
        low_mask(9) == 511,
        low_mask(11) == 2047,
{
    lemma2_to64();
}

/// Encoding then decoding: a word assembled from an opcode, two 3-bit register
/// fields and six low bits decodes to exactly those fields, and every other field
/// is the part of them that its bit range covers.
pub proof fn lemma_encode_decode(op: u16, a: u16, b: u16, low: u16)
    requires
        op < 16,
        a < 8,
        b < 8,
        low < 64,
    ensures
        ({
            let d = decode_spec(encode_word(op, a, b, low));
            &&& opcode_index(d.opcode) == op
            &&& d.opcode == opcode_of(op)
            &&& d.dr == a
            &&& d.nzp == a
            &&& d.sr1 == b
            &&& d.base_r == b
            &&& d.sr2 == low & 7
            &&& d.imm5 == sext_spec(low & 31, 5)
            &&& d.trap_code == ((b & 3) << 6u16) | low
            &&& (d.opcode == Opcode::LDR || d.opcode == Opcode::STR) ==> d.offset == sext_spec(
                low,
                6,
            )
            &&& d.opcode == Opcode::JSR ==> d.offset == sext_spec(
                ((a & 3) << 9u16) | (b << 6u16) | low,
                11,
            )
            &&& !(d.opcode == Opcode::LDR || d.opcode == Opcode::STR || d.opcode == Opcode::JSR)
                ==> d.offset == sext_spec((b << 6u16) | low, 9)
            &&& (d.opcode == Opcode::ADD || d.opcode == Opcode::AND) ==> d.flag == low >> 5u16
            &&& !(d.opcode == Opcode::ADD || d.opcode == Opcode::AND) ==> d.flag == a >> 2u16
        }),
{
    lemma_small_masks();
    lemma_encode_fields(op, a, b, low);
}

proof fn lemma_reassemble(w: u16)
    by (bit_vector)
    ensures
        w == ((((w >> 12u16) & 15) << 12u16) | (((w >> 9u16) & 7) << 9u16) | (((w >> 6u16) & 7)
            << 6u16) | ((w >> 0u16) & 63)),
        ((w >> 0u16) & 255) & 63 == (w >> 0u16) & 63,
{
}

/// Decoding is a total function of the word that loses nothing: every word decodes
/// to well-formed fields, and the opcode, `dr`, `sr1` and the low six bits of
/// `trap_code` assemble back into the word. So two words decode alike exactly when
/// they are equal.
pub proof fn lemma_decode_faithful(w: u16, v: u16)
    ensures
        decode_spec(w).wf(),
        encode_word(
            opcode_index(decode_spec(w).opcode),
            decode_spec(w).dr,
            decode_spec(w).sr1,
            decode_spec(w).trap_code & 63,
        ) == w,
        decode_spec(w) == decode_spec(v) <==> w == v,
{
    lemma_small_masks();
    lemma_decode_wf(w);
    lemma_decode_wf(v);
    lemma_reassemble(w);
    lemma_reassemble(v);
}

} // verus!
