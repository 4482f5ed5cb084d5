//! The mathematical model of the processor: its state as plain values, and
//! what each operation does to that state.
use vstd::prelude::*;

use crate::error::CpuError;

verus! {

/// Number of addressable bytes of memory (addresses `0 ..= 0xFFFE`).
pub const MEMORY_SIZE: usize = 0xFFFF;

/// Address at which `load` places a program.
pub const PROGRAM_ORIGIN: u16 = 0x8000;

/// Address of the two-byte, little-endian reset vector.
pub const RESET_VECTOR: u16 = 0xFFFC;

/// Longest program that fits between the program origin and the end of memory.
pub const MAX_PROGRAM_LEN: usize = MEMORY_SIZE - 0x8000;

/// Bit of the status byte that records a zero result.
pub const ZERO_FLAG: u8 = 0b0000_0010;

/// Bit of the status byte that records a result with bit 7 set.
pub const NEGATIVE_FLAG: u8 = 0b1000_0000;

/// Load-accumulator-immediate: one operand byte.
pub const OP_LDA: u8 = 0xA9;

/// Transfer-accumulator-to-index-x.
pub const OP_TAX: u8 = 0xAA;

/// Increment-index-x, wrapping at 256.
pub const OP_INX: u8 = 0xE8;

/// Halt.
pub const OP_BRK: u8 = 0x00;

/// The whole state of a processor.
pub struct Machine {
    pub accumulator: u8,
    pub index_x: u8,
    pub index_y: u8,
    pub status: u8,
    pub pointer: u16,
    pub memory: Seq<u8>,
}

impl Machine {
    /// Memory has its fixed size.
    pub open spec fn wf(self) -> bool {
        self.memory.len() == MEMORY_SIZE
    }
}

/// Is the Zero flag set in `status`?
pub open spec fn zero_flag(status: u8) -> bool {
    status & ZERO_FLAG != 0
}

/// Is the Negative flag set in `status`?
pub open spec fn negative_flag(status: u8) -> bool {
    status & NEGATIVE_FLAG != 0
}

/// The status byte after an operation with result `result`: Zero is set iff
/// the result is 0, Negative iff bit 7 of the result is set, and every other
/// bit is kept.
pub open spec fn flags_for(status: u8, result: u8) -> u8 {
    (status & 0b0111_1101) | (if result == 0 { ZERO_FLAG } else { 0u8 }) | (result & NEGATIVE_FLAG)
}

/// After an operation with result `result`, Zero tells whether the result
/// is 0, Negative whether its bit 7 is set, and the other bits of the status
/// byte are as they were.
pub proof fn lemma_flags_for(status: u8, result: u8)
    ensures
        zero_flag(flags_for(status, result)) == (result == 0),
        negative_flag(flags_for(status, result)) == (result >= 128),
        flags_for(status, result) & 0b0111_1101 == status & 0b0111_1101,
{
    assert(((status & 0b0111_1101) | (if result == 0 { 2u8 } else { 0u8 }) | (result & 0x80u8)) & 2u8
        != 0 <==> result == 0) by (bit_vector);
    assert(((status & 0b0111_1101) | (if result == 0 { 2u8 } else { 0u8 }) | (result & 0x80u8))
        & 0x80u8 != 0 <==> result >= 128) by (bit_vector);
    assert(((status & 0b0111_1101) | (if result == 0 { 2u8 } else { 0u8 }) | (result & 0x80u8))
        & 0b0111_1101 == status & 0b0111_1101) by (bit_vector);
}

/// Is `addr` an address of memory?
pub open spec fn in_memory(addr: int) -> bool {
    0 <= addr < MEMORY_SIZE
}

/// The 16-bit value with low byte `lo` and high byte `hi`.
pub open spec fn word(lo: u8, hi: u8) -> u16 {
    (hi as int * 256 + lo as int) as u16
}

/// Reading one byte at `addr`.
pub open spec fn read_byte(memory: Seq<u8>, addr: u16) -> Result<u8, CpuError> {
    if in_memory(addr as int) {
        Ok(memory[addr as int])
    } else {
        Err(CpuError::AddressOutOfRange { address: addr })
    }
}

/// The first address of the two at `pos` that lies outside memory.
pub open spec fn first_outside(pos: u16) -> u16 {
    if in_memory(pos as int) {
        (pos + 1) as u16
    } else {
        pos
    }
}

/// Reading a little-endian 16-bit value at `pos` and `pos + 1`.
pub open spec fn read_word(memory: Seq<u8>, pos: u16) -> Result<u16, CpuError> {
    if in_memory(pos + 1) {
        Ok(word(memory[pos as int], memory[pos + 1]))
    } else {
        Err(CpuError::AddressOutOfRange { address: first_outside(pos) })
    }
}

/// Memory after writing `data` little-endian at `pos` and `pos + 1`.
pub open spec fn write_word(memory: Seq<u8>, pos: u16, data: u16) -> Seq<u8> {
    memory.update(pos as int, (data % 256) as u8).update(pos + 1, (data / 256) as u8)
}

/// Memory with `program` copied in from the program origin on.
pub open spec fn place_program(memory: Seq<u8>, program: Seq<u8>) -> Seq<u8> {
    Seq::new(
        memory.len(),
        |j: int|
            if PROGRAM_ORIGIN <= j < PROGRAM_ORIGIN + program.len() {
                program[j - PROGRAM_ORIGIN]
            } else {
                memory[j]
            },
    )
}

/// Loading `program`: it is placed at the origin and the reset vector is
/// pointed at the origin; a program longer than the space left fails.
pub open spec fn loaded(m: Machine, program: Seq<u8>) -> Result<Machine, CpuError> {
    if program.len() <= MAX_PROGRAM_LEN {
        Ok(
            Machine {
                memory: write_word(place_program(m.memory, program), RESET_VECTOR, PROGRAM_ORIGIN),
                ..m
            },
        )
    } else {
        Err(CpuError::ProgramTooLarge { length: program.len() as usize })
    }
}

/// Resetting: accumulator, index_x and status are cleared and the pointer is
/// taken from the reset vector; index_y and memory are kept.
pub open spec fn reset_state(m: Machine) -> Machine {
    Machine {
        accumulator: 0,
        index_x: 0,
        status: 0,
        pointer: word(m.memory[RESET_VECTOR as int], m.memory[RESET_VECTOR + 1]),
        ..m
    }
}

/// What one fetch-decode-execute cycle leads to.
pub enum Step {
    /// The instruction was carried out; execution goes on from this state.
    Next(Machine),
    /// A halt was fetched; this is the final state.
    Halted(Machine),
    /// Execution stopped with an error in this state.
    Faulted(Machine, CpuError),
}

/// One fetch-decode-execute cycle.
pub open spec fn step(m: Machine) -> Step {
    let pc = m.pointer;
    if !in_memory(pc as int) {
        Step::Faulted(m, CpuError::AddressOutOfRange { address: pc })
    } else {
        let opcode = m.memory[pc as int];
        let fetched = Machine { pointer: (pc + 1) as u16, ..m };
        if opcode == OP_LDA {
            if !in_memory(pc + 1) {
                Step::Faulted(fetched, CpuError::AddressOutOfRange { address: (pc + 1) as u16 })
            } else {
                let v = m.memory[pc + 1];
                Step::Next(
                    Machine { accumulator: v, status: flags_for(m.status, v), pointer: (pc + 2) as u16, ..m },
                )
            }
        } else if opcode == OP_TAX {
            Step::Next(
                Machine { index_x: m.accumulator, status: flags_for(m.status, m.accumulator), ..fetched },
            )
        } else if opcode == OP_INX {
            let x = ((m.index_x + 1) % 256) as u8;
            Step::Next(Machine { index_x: x, status: flags_for(m.status, x), ..fetched })
        } else if opcode == OP_BRK {
            Step::Halted(fetched)
        } else {
            Step::Faulted(fetched, CpuError::UnimplementedOpcode { opcode, address: pc })
        }
    }
}

/// Running from `m` until a halt or a fault: the final state and how it ended.
pub open spec fn run(m: Machine) -> (Machine, Result<(), CpuError>)
    decreases 0x10000 - m.pointer,
{
    match step(m) {
        Step::Next(n) => run(n),
        Step::Halted(n) => (n, Ok(())),
        Step::Faulted(n, e) => (n, Err(e)),
    }
}

/// Loading `program`, resetting, then running.
pub open spec fn load_and_run_result(m: Machine, program: Seq<u8>) -> (Machine, Result<(), CpuError>) {
    match loaded(m, program) {
        Ok(l) => run(reset_state(l)),
        Err(e) => (m, Err(e)),
    }
}

} // verus!
