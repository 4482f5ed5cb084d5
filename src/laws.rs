//! Properties of whole runs of the processor, stated over the model.
use vstd::prelude::*;

use crate::error::CpuError;
use crate::machine::{
    in_memory, lemma_flags_for, load_and_run_result, loaded, negative_flag, reset_state, run, step,
    zero_flag, Machine, MAX_PROGRAM_LEN, OP_BRK, OP_INX, OP_LDA, OP_TAX, PROGRAM_ORIGIN,
    RESET_VECTOR,
};

verus! {

/// Loading any program that fits, then resetting, sets the instruction
/// pointer to the program origin.
pub proof fn reset_after_load_starts_at_origin(m: Machine, program: Seq<u8>)
    requires
        m.wf(),
        program.len() <= MAX_PROGRAM_LEN,
    ensures
        loaded(m, program) is Ok,
        reset_state(loaded(m, program)->Ok_0).pointer == PROGRAM_ORIGIN,
{
    let l = loaded(m, program)->Ok_0;
    assert(l.memory[RESET_VECTOR as int] == 0u8);
    assert(l.memory[RESET_VECTOR + 1] == 0x80u8);
}

/// A loaded program stands in memory from the origin on, up to the reset vector.
proof fn lemma_program_at_origin(m: Machine, program: Seq<u8>, k: int)
    requires
        m.wf(),
        program.len() <= MAX_PROGRAM_LEN,
        0 <= k < program.len(),
        PROGRAM_ORIGIN + k < RESET_VECTOR,
    ensures
        loaded(m, program)->Ok_0.memory[PROGRAM_ORIGIN + k] == program[k],
{
}

/// Running `[load-accumulator-immediate, v, halt]` leaves `v` in the
/// accumulator, with Zero set iff `v` is 0 and Negative set iff bit 7 of `v`
/// is set, and ends with a halt.
pub proof fn load_immediate_sets_accumulator_and_flags(m: Machine, v: u8)
    requires
        m.wf(),
    ensures
        load_and_run_result(m, seq![OP_LDA, v, OP_BRK]).1 == Ok::<(), CpuError>(()),
        load_and_run_result(m, seq![OP_LDA, v, OP_BRK]).0.accumulator == v,
        zero_flag(load_and_run_result(m, seq![OP_LDA, v, OP_BRK]).0.status) == (v == 0),
        negative_flag(load_and_run_result(m, seq![OP_LDA, v, OP_BRK]).0.status) == (v >= 0x80),
{
    let program = seq![OP_LDA, v, OP_BRK];
    reset_after_load_starts_at_origin(m, program);
    lemma_program_at_origin(m, program, 0);
    lemma_program_at_origin(m, program, 1);
    lemma_program_at_origin(m, program, 2);
    let s0 = reset_state(loaded(m, program)->Ok_0);
    let s1 = step(s0)->Next_0;
    assert(step(s1) is Halted);
    assert(run(s0) == run(s1));
    lemma_flags_for(s0.status, v);
}

/// Running `[load-accumulator-immediate, v, transfer-accumulator-to-index-x,
/// halt]` leaves in index_x the value that the accumulator held at the
/// transfer, `v`.
pub proof fn transfer_copies_accumulator(m: Machine, v: u8)
    requires
        m.wf(),
    ensures
        load_and_run_result(m, seq![OP_LDA, v, OP_TAX, OP_BRK]).1 == Ok::<(), CpuError>(()),
        load_and_run_result(m, seq![OP_LDA, v, OP_TAX, OP_BRK]).0.index_x == v,
        load_and_run_result(m, seq![OP_LDA, v, OP_TAX, OP_BRK]).0.accumulator == v,
{
    let program = seq![OP_LDA, v, OP_TAX, OP_BRK];
    reset_after_load_starts_at_origin(m, program);
    lemma_program_at_origin(m, program, 0);
    lemma_program_at_origin(m, program, 1);
    lemma_program_at_origin(m, program, 2);
    lemma_program_at_origin(m, program, 3);
    let s0 = reset_state(loaded(m, program)->Ok_0);
    let s1 = step(s0)->Next_0;
    let s2 = step(s1)->Next_0;
    assert(step(s2) is Halted);
    assert(run(s1) == run(s2));
    assert(run(s0) == run(s1));
}

/// Increment-index-x adds one modulo 256 and sets Zero exactly when the
/// result is 0: from 0xFF it wraps to 0x00 with Zero set.
pub proof fn increment_wraps_around(m: Machine)
    requires
        m.wf(),
        in_memory(m.pointer as int),
        m.memory[m.pointer as int] == OP_INX,
    ensures
        step(m) is Next,
        step(m)->Next_0.index_x == (m.index_x + 1) % 256,
        zero_flag(step(m)->Next_0.status) == (step(m)->Next_0.index_x == 0),
        m.index_x == 0xFF ==> step(m)->Next_0.index_x == 0 && zero_flag(step(m)->Next_0.status),
{
    lemma_flags_for(m.status, ((m.index_x + 1) % 256) as u8);
}

/// A halt ends the run at once: the run finishes in the state just after
/// the halt was fetched, so no byte after it is ever fetched or interpreted.
pub proof fn halt_stops_before_next_byte(m: Machine)
    requires
        m.wf(),
        in_memory(m.pointer as int),
        m.memory[m.pointer as int] == OP_BRK,
    ensures
        run(m) == (Machine { pointer: (m.pointer + 1) as u16, ..m }, Ok::<(), CpuError>(())),
{
}

/// An opcode outside the four implemented ones ends the run with
/// `UnimplementedOpcode`, carrying that opcode and its address; it is never
/// skipped.
pub proof fn unknown_opcode_faults(m: Machine)
    requires
        m.wf(),
        in_memory(m.pointer as int),
        m.memory[m.pointer as int] != OP_LDA,
        m.memory[m.pointer as int] != OP_TAX,
        m.memory[m.pointer as int] != OP_INX,
        m.memory[m.pointer as int] != OP_BRK,
    ensures
        run(m) == (
            Machine { pointer: (m.pointer + 1) as u16, ..m },
            Err::<(), CpuError>(
                CpuError::UnimplementedOpcode { opcode: m.memory[m.pointer as int], address: m.pointer },
            ),
        ),
{
}

} // verus!
