//! The executable processor.
use vstd::prelude::*;

use crate::error::CpuError;
use crate::machine::{
    first_outside, flags_for, in_memory, load_and_run_result, loaded, negative_flag,
    place_program, read_byte, read_word, reset_state, run, step, write_word, zero_flag, Machine,
    Step, MAX_PROGRAM_LEN, MEMORY_SIZE, NEGATIVE_FLAG, OP_BRK, OP_INX, OP_LDA, OP_TAX,
    PROGRAM_ORIGIN, RESET_VECTOR, ZERO_FLAG,
};

verus! {

/// A processor: its registers, its status byte and its memory.
///
/// Memory holds `MEMORY_SIZE` (0xFFFF) bytes, at addresses 0x0000 to 0xFFFE.
/// Address 0xFFFF lies outside it: every access that reaches it, including
/// the high byte of a 16-bit access at 0xFFFE and a fetch there, fails with
/// `CpuError::AddressOutOfRange`; addresses do not wrap around.
pub struct CPU {
    pub register_a: u8,
    pub register_x: u8,
    pub register_y: u8,
    pub processor_status: u8,
    pub program_counter: u16,
    memory: Vec<u8>,
}

impl View for CPU {
    type V = Machine;

    closed spec fn view(&self) -> Machine {
        Machine {
            accumulator: self.register_a,
            index_x: self.register_x,
            index_y: self.register_y,
            status: self.processor_status,
            pointer: self.program_counter,
            memory: self.memory@,
        }
    }
}

impl CPU {
    /// Memory has its fixed size.
    pub open spec fn wf(&self) -> bool {
        self@.wf()
    }

    /// A processor with every register, the status byte and all of memory zero.
    pub fn new() -> (r: CPU)
        ensures
            r.wf(),
            r@ == (Machine {
                accumulator: 0,
                index_x: 0,
                index_y: 0,
                status: 0,
                pointer: 0,
                memory: Seq::new(MEMORY_SIZE as nat, |i: int| 0u8),
            }),
    {
        let mut memory: Vec<u8> = Vec::new();
        while memory.len() < MEMORY_SIZE
            invariant
                memory.len() <= MEMORY_SIZE,
                forall|i: int| 0 <= i < memory.len() ==> memory@[i] == 0u8,
            decreases MEMORY_SIZE - memory.len(),
        {
            memory.push(0u8);
        }
        let r = CPU {
            register_a: 0,
            register_x: 0,
            register_y: 0,
            processor_status: 0,
            program_counter: 0,
            memory,
        };
        assert(r@.memory =~= Seq::new(MEMORY_SIZE as nat, |i: int| 0u8));
        r
    }

    /// The byte at `addr`, or `AddressOutOfRange` past the end of memory.
    pub fn memory_read(&self, addr: u16) -> (r: Result<u8, CpuError>)
        requires
            self.wf(),
        ensures
            r == read_byte(self@.memory, addr),
    {
        if (addr as usize) < self.memory.len() {
            Ok(self.memory[addr as usize])
        } else {
            Err(CpuError::AddressOutOfRange { address: addr })
        }
    }

    /// Stores `data` at `addr`; past the end of memory nothing changes and
    /// `AddressOutOfRange` is returned.
    pub fn memory_write(&mut self, addr: u16, data: u8) -> (r: Result<(), CpuError>)
        requires
            old(self).wf(),
        ensures
            final(self).wf(),
            r is Ok <==> in_memory(addr as int),
            r is Err ==> r == Err::<(), CpuError>(CpuError::AddressOutOfRange { address: addr }),
            final(self)@ == (Machine {
                memory: if in_memory(addr as int) {
                    old(self)@.memory.update(addr as int, data)
                } else {
                    old(self)@.memory
                },
                ..old(self)@
            }),
    {
        if (addr as usize) < self.memory.len() {
            self.memory.set(addr as usize, data);
            Ok(())
        } else {
            Err(CpuError::AddressOutOfRange { address: addr })
        }
    }

    /// The little-endian 16-bit value at `pos` and `pos + 1`, or
    /// `AddressOutOfRange` where either lies past the end of memory.
    pub fn memory_read_u16(&self, pos: u16) -> (r: Result<u16, CpuError>)
        requires
            self.wf(),
        ensures
            r == read_word(self@.memory, pos),
    {
        let lo = match self.memory_read(pos) {
            Ok(b) => b,
            Err(e) => return Err(e),
        };
        if pos == u16::MAX {
            return Err(CpuError::AddressOutOfRange { address: pos });
        }
        let hi = match self.memory_read(pos + 1) {
            Ok(b) => b,
            Err(e) => return Err(e),
        };
        let value: u16 = ((hi as u16) << 8) | (lo as u16);
        assert(((hi as u16) << 8) | (lo as u16) == (hi as u16) * 256 + (lo as u16)) by (bit_vector);
        Ok(value)
    }

    /// Stores `data` little-endian at `pos` and `pos + 1`. Where either lies
    /// past the end of memory nothing changes and `AddressOutOfRange` is
    /// returned.
    pub fn memory_write_u16(&mut self, pos: u16, data: u16) -> (r: Result<(), CpuError>)
        requires
            old(self).wf(),
        ensures
            final(self).wf(),
            r is Ok <==> in_memory(pos + 1),
            r is Err ==> r == Err::<(), CpuError>(
                CpuError::AddressOutOfRange { address: first_outside(pos) },
            ),
            final(self)@ == (Machine {
                memory: if in_memory(pos + 1) {
                    write_word(old(self)@.memory, pos, data)
                } else {
                    old(self)@.memory
                },
                ..old(self)@
            }),
    {
        if pos as usize >= self.memory.len() {
            return Err(CpuError::AddressOutOfRange { address: pos });
        }
        if pos as usize + 1 >= self.memory.len() {
            return Err(CpuError::AddressOutOfRange { address: pos + 1 });
        }
        let hi = (data >> 8) as u8;
        let lo = (data & 0xff) as u8;
        assert((data >> 8) as u8 == data / 256 && (data & 0xff) as u8 == data % 256) by (bit_vector);
        self.memory.set(pos as usize, lo);
        self.memory.set(pos as usize + 1, hi);
        Ok(())
    }

    /// Is the Zero flag set?
    pub fn zero_flag(&self) -> (r: bool)
        ensures
            r == zero_flag(self@.status),
    {
        self.processor_status & ZERO_FLAG != 0
    }

    /// Is the Negative flag set?
    pub fn negative_flag(&self) -> (r: bool)
        ensures
            r == negative_flag(self@.status),
    {
        self.processor_status & NEGATIVE_FLAG != 0
    }

    /// Sets Zero iff `result` is 0 and Negative iff bit 7 of `result` is set,
    /// keeping the other status bits.
    fn update_zero_and_negative_flags(&mut self, result: u8)
        ensures
            final(self)@ == (Machine { status: flags_for(old(self)@.status, result), ..old(self)@ }),
            final(self).memory == old(self).memory,
    {
        let status = self.processor_status;
        let with_zero: u8 = if result == 0 {
            status | ZERO_FLAG
        } else {
            status & 0b1111_1101
        };
        let with_negative: u8 = if result & NEGATIVE_FLAG != 0 {
            with_zero | NEGATIVE_FLAG
        } else {
            with_zero & 0b0111_1111
        };
        assert((if result & 0x80u8 != 0 {
            (if result == 0 { status | 2u8 } else { status & 0b1111_1101 }) | 0x80u8
        } else {
            (if result == 0 { status | 2u8 } else { status & 0b1111_1101 }) & 0b0111_1111
        }) == (status & 0b0111_1101) | (if result == 0 { 2u8 } else { 0u8 }) | (result & 0x80u8))
            by (bit_vector);
        self.processor_status = with_negative;
    }

    /// Load-accumulator: the accumulator takes `value`.
    fn lda(&mut self, value: u8)
        ensures
            final(self)@ == (Machine {
                accumulator: value,
                status: flags_for(old(self)@.status, value),
                ..old(self)@
            }),
            final(self).memory == old(self).memory,
    {
        self.register_a = value;
        self.update_zero_and_negative_flags(self.register_a);
    }

    /// Transfer-accumulator-to-index-x.
    fn tax(&mut self)
        ensures
            final(self)@ == (Machine {
                index_x: old(self)@.accumulator,
                status: flags_for(old(self)@.status, old(self)@.accumulator),
                ..old(self)@
            }),
            final(self).memory == old(self).memory,
    {
        self.register_x = self.register_a;
        self.update_zero_and_negative_flags(self.register_x);
    }

    /// Increment-index-x, wrapping from 0xFF to 0x00.
    fn inx(&mut self)
        ensures
            final(self)@ == (Machine {
                index_x: ((old(self)@.index_x + 1) % 256) as u8,
                status: flags_for(old(self)@.status, ((old(self)@.index_x + 1) % 256) as u8),
                ..old(self)@
            }),
            final(self).memory == old(self).memory,
    {
        self.register_x = self.register_x.wrapping_add(1);
        self.update_zero_and_negative_flags(self.register_x);
    }

    /// Clears accumulator, index_x and status and takes the instruction
    /// pointer from the reset vector. Memory and index_y are kept.
    pub fn reset(&mut self)
        requires
            old(self).wf(),
        ensures
            final(self).wf(),
            final(self)@ == reset_state(old(self)@),
    {
        self.register_a = 0;
        self.register_x = 0;
        self.processor_status = 0;
        if let Ok(pointer) = self.memory_read_u16(RESET_VECTOR) {
            self.program_counter = pointer;
        }
    }

    /// Copies `program` into memory from the program origin on and points
    /// the reset vector at the origin. A program longer than
    /// `MAX_PROGRAM_LEN` is refused with `ProgramTooLarge`, and nothing changes.
    pub fn load(&mut self, program: Vec<u8>) -> (r: Result<(), CpuError>)
        requires
            old(self).wf(),
        ensures
            final(self).wf(),
            r is Ok <==> program.len() <= MAX_PROGRAM_LEN,
            r is Ok ==> loaded(old(self)@, program@) == Ok::<Machine, CpuError>(final(self)@),
            r is Err ==> final(self)@ == old(self)@ && r == Err::<(), CpuError>(
                CpuError::ProgramTooLarge { length: program.len() },
            ),
    {
        if program.len() > MAX_PROGRAM_LEN {
            return Err(CpuError::ProgramTooLarge { length: program.len() });
        }
        let ghost before = self@;
        let origin = PROGRAM_ORIGIN as usize;
        let mut i: usize = 0;
        while i < program.len()
            invariant
                self.wf(),
                i <= program.len() <= MAX_PROGRAM_LEN,
                origin == PROGRAM_ORIGIN,
                self@ == (Machine { memory: self@.memory, ..before }),
                forall|j: int|
                    0 <= j < MEMORY_SIZE ==> #[trigger] self@.memory[j] == if origin <= j < origin + i {
                        program@[j - origin]
                    } else {
                        before.memory[j]
                    },
            decreases program.len() - i,
        {
            self.memory.set(origin + i, program[i]);
            i = i + 1;
        }
        assert(self@.memory =~= place_program(before.memory, program@));
        let vector = self.memory_write_u16(RESET_VECTOR, PROGRAM_ORIGIN);
        assert(vector is Ok);
        Ok(())
    }

    /// Runs the fetch-decode-execute loop from the instruction pointer until
    /// a halt (`Ok`) or a fault (`Err`): an unimplemented opcode, or a fetch
    /// past the end of memory.
    pub fn execute(&mut self) -> (r: Result<(), CpuError>)
        requires
            old(self).wf(),
        ensures
            final(self).wf(),
            (final(self)@, r) == run(old(self)@),
    {
        loop
            invariant
                self.wf(),
                run(self@) == run(old(self)@),
            decreases 0x10000 - self.program_counter,
        {
            let ghost current = self@;
            let pc = self.program_counter;
            let opcode = match self.memory_read(pc) {
                Ok(byte) => byte,
                Err(e) => return Err(e),
            };
            self.program_counter = pc + 1;
            if opcode == OP_LDA {
                let param = match self.memory_read(self.program_counter) {
                    Ok(byte) => byte,
                    Err(e) => return Err(e),
                };
                self.program_counter = self.program_counter + 1;
                self.lda(param);
            } else if opcode == OP_TAX {
                self.tax();
            } else if opcode == OP_INX {
                self.inx();
            } else if opcode == OP_BRK {
                assert(step(current) == Step::Halted(self@));
                return Ok(());
            } else {
                return Err(CpuError::UnimplementedOpcode { opcode, address: pc });
            }
            assert(step(current) == Step::Next(self@));
        }
    }

    /// Loads `program`, resets, then executes it.
    pub fn load_and_run(&mut self, program: Vec<u8>) -> (r: Result<(), CpuError>)
        requires
            old(self).wf(),
        ensures
            final(self).wf(),
            (final(self)@, r) == load_and_run_result(old(self)@, program@),
    {
        match self.load(program) {
            Ok(()) => {},
            Err(e) => return Err(e),
        }
        self.reset();
        self.execute()
    }
}

} // verus!
