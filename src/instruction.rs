use crate::machine::Chip8;
use vstd::prelude::*;

verus! {

/// A decoded instruction, carrying only the operand fields its semantics need.
#[derive(PartialEq, Eq, Structural, Clone, Copy, Debug)]
pub enum Instruction {
    /// `00E0`: clear the framebuffer.
    Cls,
    /// `00EE`: return from a subroutine.
    Ret,
    /// `1nnn`: jump to `addr`.
    Jp { addr: u16 },
    /// `2nnn`: call the subroutine at `addr`.
    Call { addr: u16 },
    /// `3xkk`: skip the next instruction if register `reg_num` equals `cmp_val`.
    SeImd { cmp_val: u8, reg_num: u8 },
    /// `4xkk`: skip the next instruction if register `reg_num` differs from `cmp_val`.
    SneImd { cmp_val: u8, reg_num: u8 },
    /// `5xy_`: skip the next instruction if registers `reg_num_x` and `reg_num_y` are equal.
    SeReg { reg_num_x: u8, reg_num_y: u8 },
    /// `6xkk`: register `reg_num` := `byte`.
    LdImd { reg_num: u8, byte: u8 },
    /// `7xkk`: register `reg_num` := register `reg_num` + `byte`, wrapping.
    AddImd { reg_num: u8, byte: u8 },
    /// Any other word: the signal on which the run loop halts.
    Unrecognized,
}

/// The top nibble of an instruction word, which selects its operation.
pub open spec fn opcode(w: u16) -> u16 {
    w >> 12u16
}

/// The low twelve bits: an address.
pub open spec fn field_nnn(w: u16) -> u16 {
    w & 0x0FFFu16
}

/// The second nibble: the first register operand.
pub open spec fn field_x(w: u16) -> u8 {
    ((w & 0x0F00u16) >> 8u16) as u8
}

/// The third nibble: the second register operand.
pub open spec fn field_y(w: u16) -> u8 {
    ((w & 0x00F0u16) >> 4u16) as u8
}

/// The low byte: an immediate value.
pub open spec fn field_kk(w: u16) -> u8 {
    (w & 0x00FFu16) as u8
}

/// The instruction that the word `w` encodes.
pub open spec fn decode_word(w: u16) -> Instruction {
    let op = opcode(w);
    if w == 0x00E0 {
        Instruction::Cls
    } else if w == 0x00EE {
        Instruction::Ret
    } else if op == 1 {
        Instruction::Jp { addr: field_nnn(w) }
    } else if op == 2 {
        Instruction::Call { addr: field_nnn(w) }
    } else if op == 3 {
        Instruction::SeImd { cmp_val: field_kk(w), reg_num: field_x(w) }
    } else if op == 4 {
        Instruction::SneImd { cmp_val: field_kk(w), reg_num: field_x(w) }
    } else if op == 5 {
        Instruction::SeReg { reg_num_x: field_x(w), reg_num_y: field_y(w) }
    } else if op == 6 {
        Instruction::LdImd { reg_num: field_x(w), byte: field_kk(w) }
    } else if op == 7 {
        Instruction::AddImd { reg_num: field_x(w), byte: field_kk(w) }
    } else {
        Instruction::Unrecognized
    }
}

/// Register indices of a decoded instruction are below 16 and its
/// addresses below 0x1000.
pub open spec fn operands_in_range(i: Instruction) -> bool {
    match i {
        Instruction::Jp { addr } => addr < 0x1000,
        Instruction::Call { addr } => addr < 0x1000,
        Instruction::SeImd { reg_num, .. } => reg_num < 16,
        Instruction::SneImd { reg_num, .. } => reg_num < 16,
        Instruction::SeReg { reg_num_x, reg_num_y } => reg_num_x < 16 && reg_num_y < 16,
        Instruction::LdImd { reg_num, .. } => reg_num < 16,
        Instruction::AddImd { reg_num, .. } => reg_num < 16,
        _ => true,
    }
}

/// Every decoded instruction has its operands in range.
pub proof fn lemma_decode_operands_in_range(w: u16)
    ensures
        operands_in_range(decode_word(w)),
{
    assert(w & 0x0FFFu16 < 0x1000) by (bit_vector);
    assert(((w & 0x0F00u16) >> 8u16) < 16) by (bit_vector);
    assert(((w & 0x00F0u16) >> 4u16) < 16) by (bit_vector);
}

impl Chip8 {
    /// Decodes `instr`; the machine is left as it was.
    pub fn decode(&mut self, instr: u16) -> (r: Instruction)
        ensures
            r == decode_word(instr),
            *final(self) == *old(self),
    {
        let opcode = instr >> 12u16;
        if instr == 0x00E0 {
            return Instruction::Cls;
        }
        if instr == 0x00EE {
            return Instruction::Ret;
        }
        if opcode == 0x1 {
            return Instruction::Jp { addr: instr & 0x0FFF };
        }
        if opcode == 0x2 {
            return Instruction::Call { addr: instr & 0x0FFF };
        }
        let reg_num_x = ((instr & 0x0F00) >> 8u16) as u8;
        let reg_num_y = ((instr & 0x00F0) >> 4u16) as u8;
        let byte = (instr & 0x00FF) as u8;
        if opcode == 0x3 {
            return Instruction::SeImd { cmp_val: byte, reg_num: reg_num_x };
        }
        if opcode == 0x4 {
            return Instruction::SneImd { cmp_val: byte, reg_num: reg_num_x };
        }
        if opcode == 0x5 {
            return Instruction::SeReg { reg_num_x, reg_num_y };
        }
        if opcode == 0x6 {
            return Instruction::LdImd { reg_num: reg_num_x, byte };
        }
        if opcode == 0x7 {
            return Instruction::AddImd { reg_num: reg_num_x, byte };
        }
        Instruction::Unrecognized
    }
}

} // verus!
