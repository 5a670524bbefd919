use crate::machine::{Chip8, MachineState, INSTRUCTION_WIDTH, STACK_DEPTH, VIDEO_CELLS};
use vstd::prelude::*;

verus! {

/// Every framebuffer cell off.
pub open spec fn blank_video() -> Seq<u32> {
    Seq::new(VIDEO_CELLS as nat, |i: int| 0u32)
}

/// `s` with `v` pushed on the call stack.
pub open spec fn push_spec(s: MachineState, v: u16) -> MachineState {
    MachineState { stack: s.stack.update(s.sp as int, v), sp: (s.sp + 1) as u8, ..s }
}

/// The address on top of the call stack.
pub open spec fn stack_top(s: MachineState) -> u16 {
    s.stack[s.sp - 1]
}

/// `s` with the top of the call stack dropped.
pub open spec fn pop_spec(s: MachineState) -> MachineState {
    MachineState { sp: (s.sp - 1) as u8, ..s }
}

/// `s` with every framebuffer cell off.
pub open spec fn cls_spec(s: MachineState) -> MachineState {
    MachineState { video: blank_video(), ..s }
}

/// `s` with the program counter taken off the top of the call stack.
pub open spec fn ret_spec(s: MachineState) -> MachineState {
    MachineState { pc: stack_top(s), ..pop_spec(s) }
}

/// `s` with the program counter at `addr`.
pub open spec fn jp_spec(s: MachineState, addr: u16) -> MachineState {
    MachineState { pc: addr, ..s }
}

/// `s` with its program counter pushed on the call stack and then set to `addr`.
pub open spec fn call_spec(s: MachineState, addr: u16) -> MachineState {
    MachineState { pc: addr, ..push_spec(s, s.pc) }
}

/// `s` with the program counter moved past one more instruction when `cond` holds.
pub open spec fn skip_if(s: MachineState, cond: bool) -> MachineState {
    if cond {
        MachineState { pc: (s.pc + INSTRUCTION_WIDTH) as u16, ..s }
    } else {
        s
    }
}

/// Skips the next instruction when register `reg_num` holds `cmp_val`.
pub open spec fn se_imd_spec(s: MachineState, reg_num: u8, cmp_val: u8) -> MachineState {
    skip_if(s, s.registers[reg_num as int] == cmp_val)
}

/// Skips the next instruction when register `reg_num` does not hold `cmp_val`.
pub open spec fn sne_imd_spec(s: MachineState, reg_num: u8, cmp_val: u8) -> MachineState {
    skip_if(s, s.registers[reg_num as int] != cmp_val)
}

/// Skips the next instruction when registers `reg_num_x` and `reg_num_y` are equal.
pub open spec fn se_reg_spec(s: MachineState, reg_num_x: u8, reg_num_y: u8) -> MachineState {
    skip_if(s, s.registers[reg_num_x as int] == s.registers[reg_num_y as int])
}

/// `s` with register `reg_num` set to `byte`.
pub open spec fn ld_imd_spec(s: MachineState, reg_num: u8, byte: u8) -> MachineState {
    MachineState { registers: s.registers.update(reg_num as int, byte), ..s }
}

/// Adds `byte` to a register modulo 256; no other register, the flag
/// register included, changes.
pub open spec fn add_imd_spec(s: MachineState, reg_num: u8, byte: u8) -> MachineState {
    MachineState {
        registers: s.registers.update(
            reg_num as int,
            ((s.registers[reg_num as int] + byte) % 256) as u8,
        ),
        ..s
    }
}

/// `s` with register `reg_num_x` set to the value of register `reg_num_y`.
pub open spec fn ld_reg_spec(s: MachineState, reg_num_x: u8, reg_num_y: u8) -> MachineState {
    MachineState {
        registers: s.registers.update(reg_num_x as int, s.registers[reg_num_y as int]),
        ..s
    }
}

impl Chip8 {
    /// Pushes `val` on the call stack, which must not be full.
    pub fn push(&mut self, val: u16)
        requires
            old(self).sp < STACK_DEPTH,
        ensures
            final(self)@ == push_spec(old(self)@, val),
    {
        self.stack[self.sp as usize] = val;
        self.sp = self.sp + 1;
        assert(self@.stack =~= old(self)@.stack.update(old(self).sp as int, val));
    }

    /// Pops the top of the call stack, which must not be empty.
    pub fn pop(&mut self) -> (r: u16)
        requires
            0 < old(self).sp <= STACK_DEPTH,
        ensures
            r == stack_top(old(self)@),
            final(self)@ == pop_spec(old(self)@),
    {
        self.sp = self.sp - 1;
        self.stack[self.sp as usize]
    }

    /// Turns every framebuffer cell off.
    pub fn cls(&mut self)
        ensures
            final(self)@ == cls_spec(old(self)@),
            forall|i: int| 0 <= i < VIDEO_CELLS ==> final(self).video[i] == 0,
    {
        let mut i: usize = 0;
        while i < VIDEO_CELLS
            invariant
                i <= VIDEO_CELLS,
                self@ == (MachineState { video: self@.video, ..old(self)@ }),
                forall|j: int| 0 <= j < i ==> self.video[j] == 0,
            decreases VIDEO_CELLS - i,
        {
            self.video[i] = 0;
            i = i + 1;
        }
        assert(self@.video =~= blank_video());
    }

    /// Returns from a subroutine: the program counter takes the address on
    /// top of the call stack, which must not be empty.
    pub fn ret(&mut self)
        requires
            0 < old(self).sp <= STACK_DEPTH,
        ensures
            final(self)@ == ret_spec(old(self)@),
    {
        self.pc = self.pop();
    }

    /// Jumps to `addr`.
    pub fn jp(&mut self, addr: u16)
        ensures
            final(self)@ == jp_spec(old(self)@, addr),
    {
        self.pc = addr;
    }

    /// Calls the subroutine at `addr`: the program counter goes on the call
    /// stack, which must not be full, and then takes `addr`.
    pub fn call(&mut self, addr: u16)
        requires
            old(self).sp < STACK_DEPTH,
        ensures
            final(self)@ == call_spec(old(self)@, addr),
    {
        let pc = self.pc;
        self.push(pc);
        self.pc = addr;
    }

    /// Skips the next instruction when register `reg_num` holds `cmp_val`.
    pub fn se_imd(&mut self, reg_num: u8, cmp_val: u8)
        requires
            reg_num < 16,
            old(self).pc + 2 <= u16::MAX,
        ensures
            final(self)@ == se_imd_spec(old(self)@, reg_num, cmp_val),
    {
        if self.registers[reg_num as usize] == cmp_val {
            self.pc = self.pc + INSTRUCTION_WIDTH;
        }
    }

    /// Skips the next instruction when register `reg_num` does not hold `cmp_val`.
    pub fn sne_imd(&mut self, reg_num: u8, cmp_val: u8)
        requires
            reg_num < 16,
            old(self).pc + 2 <= u16::MAX,
        ensures
            final(self)@ == sne_imd_spec(old(self)@, reg_num, cmp_val),
    {
        if self.registers[reg_num as usize] != cmp_val {
            self.pc = self.pc + INSTRUCTION_WIDTH;
        }
    }

    /// Skips the next instruction when registers `reg_num_x` and `reg_num_y` are equal.
    pub fn se_reg(&mut self, reg_num_x: u8, reg_num_y: u8)
        requires
            reg_num_x < 16,
            reg_num_y < 16,
            old(self).pc + 2 <= u16::MAX,
        ensures
            final(self)@ == se_reg_spec(old(self)@, reg_num_x, reg_num_y),
    {
        if self.registers[reg_num_x as usize] == self.registers[reg_num_y as usize] {
            self.pc = self.pc + INSTRUCTION_WIDTH;
        }
    }

    /// Sets register `reg_num` to `byte`.
    pub fn ld_imd(&mut self, reg_num: u8, byte: u8)
        requires
            reg_num < 16,
        ensures
            final(self)@ == ld_imd_spec(old(self)@, reg_num, byte),
    {
        self.registers[reg_num as usize] = byte;
        assert(self@.registers =~= old(self)@.registers.update(reg_num as int, byte));
    }

    /// Adds `byte` to register `reg_num`, wrapping modulo 256; no flag is set.
    pub fn add_imd(&mut self, reg_num: u8, byte: u8)
        requires
            reg_num < 16,
        ensures
            final(self)@ == add_imd_spec(old(self)@, reg_num, byte),
    {
        let v = self.registers[reg_num as usize].wrapping_add(byte);
        self.registers[reg_num as usize] = v;
        assert(self@.registers =~= add_imd_spec(old(self)@, reg_num, byte).registers);
    }

    /// Copies register `reg_num_y` into register `reg_num_x`.
    pub fn ld_reg(&mut self, reg_num_x: u8, reg_num_y: u8)
        requires
            reg_num_x < 16,
            reg_num_y < 16,
        ensures
            final(self)@ == ld_reg_spec(old(self)@, reg_num_x, reg_num_y),
    {
        let v = self.registers[reg_num_y as usize];
        self.registers[reg_num_x as usize] = v;
        assert(self@.registers =~= ld_reg_spec(old(self)@, reg_num_x, reg_num_y).registers);
    }
}

} // verus!
