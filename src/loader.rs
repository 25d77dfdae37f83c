//! The object-file loader: a big-endian stream of 16-bit words whose first word is
//! the load origin.
use crate::vm::{blank_state, MachineState, PC, VM};
use vstd::prelude::*;

verus! {

/// Why an object image could not be loaded.
#[derive(PartialEq, Eq, Structural, Debug, Clone, Copy)]
pub enum LoadError {
    /// The image holds no bytes, so no origin.
    Empty,
    /// The image ends in the middle of a word.
    OddLength,
}

/// The big-endian word made of bytes `hi` and `lo`.
pub open spec fn be_word(hi: u8, lo: u8) -> u16 {
    (hi as int * 256 + lo as int) as u16
}

/// Word `i` of an image (word 0 is the origin).
pub open spec fn image_word(bytes: Seq<u8>, i: int) -> u16 {
    be_word(bytes[2 * i], bytes[2 * i + 1])
}

/// Memory after words `1..=k` of the image were stored from `origin` on, word `i`
/// at address `origin + i - 1` modulo `2^16`.
pub open spec fn load_words(memory: Seq<u16>, bytes: Seq<u8>, origin: u16, k: nat) -> Seq<u16>
    decreases k,
{
    if k == 0 {
        memory
    } else {
        load_words(memory, bytes, origin, (k - 1) as nat).update(
            (origin as int + k - 1) % 0x10000,
            image_word(bytes, k as int),
        )
    }
}

/// The machine an image of even, non-zero length loads into: memory filled from
/// the origin on, PC at the origin, everything else as at start-up.
pub open spec fn loaded_state(bytes: Seq<u8>) -> MachineState {
    let origin = image_word(bytes, 0);
    let blank = blank_state();
    MachineState {
        memory: load_words(blank.memory, bytes, origin, (bytes.len() / 2 - 1) as nat),
        ..blank.set_reg(PC, origin)
    }
}

pub(crate) fn word_at(bytes: &Vec<u8>, i: usize) -> (r: u16)
    requires
        2 * i + 1 < bytes.len(),
    ensures
        r == image_word(bytes@, i as int),
{
    (bytes[2 * i] as u16) * 256 + (bytes[2 * i + 1] as u16)
}

/// Loads an object image. An empty image and one of odd length are refused; any
/// other loads, and the machine starts at the origin.
pub fn load_program(bytes: &Vec<u8>) -> (r: Result<VM, LoadError>)
    ensures
        bytes.len() == 0 ==> r == Err::<VM, LoadError>(LoadError::Empty),
        bytes.len() % 2 == 1 ==> r == Err::<VM, LoadError>(LoadError::OddLength),
        bytes.len() > 0 && bytes.len() % 2 == 0 ==> (r matches Ok(vm) && vm.wf() && vm@
            == loaded_state(bytes@)),
{
    if bytes.len() == 0 {
        return Err(LoadError::Empty);
    }
    if bytes.len() % 2 == 1 {
        return Err(LoadError::OddLength);
    }
    let n = bytes.len() / 2;
    let origin = word_at(bytes, 0);
    let mut vm = VM::init();
    let ghost blank = vm@;
    let mut address = origin;
    let mut i: usize = 1;
    while i < n
        invariant
            1 <= i <= n,
            n == bytes.len() / 2,
            vm.wf(),
            vm@ == (MachineState { memory: vm@.memory, ..blank }),
            vm@.memory == load_words(blank.memory, bytes@, origin, (i - 1) as nat),
            address as int == (origin as int + i - 1) % 0x10000,
        decreases n - i,
    {
        let w = word_at(bytes, i);
        *vm.mem_mut(address) = w;
        address = address.wrapping_add(1);
        i = i + 1;
    }
    *vm.reg_mut(PC) = origin;
    Ok(vm)
}

} // verus!
