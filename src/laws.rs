//! Properties that relate several operations of the machine.

use crate::handlers::{add_imd_spec, ld_imd_spec};
use crate::instruction::{decode_word, Instruction};
use crate::machine::{read_word, write_word, Chip8Error, MachineState, MEMORY_SIZE, STACK_DEPTH};
use crate::run::{execute, fetch_in_range, fetched, step_spec, StepStatus};
use vstd::prelude::*;

verus! {

/// Writing a 16-bit value at an address and reading 16 bits back from it
/// gives the value; bytes at other addresses are untouched.
pub proof fn lemma_word_round_trip(mem: Seq<u8>, a: int, v: u16)
    requires
        0 <= a,
        a + 1 < mem.len(),
    ensures
        read_word(write_word(mem, a, v), a) == v,
        forall|b: int|
            0 <= b < mem.len() && b != a && b != a + 1 ==> #[trigger] write_word(mem, a, v)[b]
                == mem[b],
{
}

/// A call followed at its target by a return brings the program counter
/// back to the instruction right after the call, and the stack pointer back
/// to where it was.
pub proof fn lemma_call_then_return(s: MachineState, addr: u16)
    requires
        s.wf(),
        fetch_in_range(s),
        s.sp < STACK_DEPTH,
        fetched(s) == (Instruction::Call { addr }),
        addr + 1 < MEMORY_SIZE,
        decode_word(read_word(s.memory, addr as int)) == Instruction::Ret,
    ensures
        step_spec(s).1 == Ok::<StepStatus, Chip8Error>(StepStatus::Executed),
        step_spec(step_spec(s).0).1 == Ok::<StepStatus, Chip8Error>(
            StepStatus::Executed,
        ),
        step_spec(step_spec(s).0).0.pc == s.pc + 2,
        step_spec(step_spec(s).0).0.sp == s.sp,
{
    let t = step_spec(s).0;
    assert(t.memory == s.memory);
    assert(t.pc == addr);
    assert(fetched(t) == Instruction::Ret);
}

/// A skip-if-equal-immediate step moves the program counter by four bytes
/// when the register holds the value, and by two otherwise.
pub proof fn lemma_skip_if_equal_immediate(s: MachineState, r: u8, v1: u8)
    requires
        s.wf(),
        fetch_in_range(s),
        fetched(s) == (Instruction::SeImd { cmp_val: v1, reg_num: r }),
    ensures
        step_spec(s).1 == Ok::<StepStatus, Chip8Error>(StepStatus::Executed),
        step_spec(s).0.pc == s.pc + if s.registers[r as int] == v1 {
            4int
        } else {
            2int
        },
{
}

/// Loading a byte into a register and then adding a byte to it leaves the
/// sum modulo 256 there, and changes nothing else.
pub proof fn lemma_load_then_add(s: MachineState, r: u8, v1: u8, v2: u8)
    requires
        s.wf(),
        r < 16,
    ensures
        execute(s, Instruction::LdImd { reg_num: r, byte: v1 }) == Ok::<
            MachineState,
            Chip8Error,
        >(ld_imd_spec(s, r, v1)),
        execute(ld_imd_spec(s, r, v1), Instruction::AddImd { reg_num: r, byte: v2 }) == Ok::<
            MachineState,
            Chip8Error,
        >(MachineState { registers: s.registers.update(r as int, ((v1 + v2) % 256) as u8), ..s }),
{
    let t = add_imd_spec(ld_imd_spec(s, r, v1), r, v2);
    assert(t.registers =~= s.registers.update(r as int, ((v1 + v2) % 256) as u8));
}

} // verus!
