use vstd::prelude::*;

verus! {

/// Why an operation of the processor could not be carried out.
#[derive(Debug, Clone, Copy, PartialEq, Eq, Structural)]
pub enum CpuError {
    /// The byte fetched as an opcode is none of the implemented ones.
    /// `address` is where that byte was fetched from.
    UnimplementedOpcode { opcode: u8, address: u16 },
    /// An access reached an address beyond the end of memory.
    AddressOutOfRange { address: u16 },
    /// A program does not fit between the program origin and the end of memory.
    ProgramTooLarge { length: usize },
}

} // verus!
