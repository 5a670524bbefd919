use crate::handlers::{
    add_imd_spec, call_spec, cls_spec, jp_spec, ld_imd_spec, ret_spec, se_imd_spec, se_reg_spec,
    sne_imd_spec,
};
use crate::instruction::{decode_word, lemma_decode_operands_in_range, Instruction};
use crate::machine::{
    read_word, Chip8, Chip8Error, MachineState, INSTRUCTION_WIDTH, MEMORY_SIZE, STACK_DEPTH,
};
use vstd::prelude::*;

verus! {

/// What one step of the machine did.
#[derive(PartialEq, Eq, Structural, Clone, Copy, Debug)]
pub enum StepStatus {
    /// An instruction was executed; the machine can go on.
    Executed,
    /// The fetched word was unrecognized; the machine stops.
    Halted,
}

/// How a run ended without a fault.
#[derive(PartialEq, Eq, Structural, Clone, Copy, Debug)]
pub enum RunStatus {
    /// The machine fetched an unrecognized word.
    Halted,
    /// The step budget was spent first.
    StepLimit,
}

/// The effect of executing `i` on `s`, whose program counter has already
/// moved past the instruction.
pub open spec fn execute(s: MachineState, i: Instruction) -> Result<MachineState, Chip8Error> {
    match i {
        Instruction::Cls => Ok(cls_spec(s)),
        Instruction::Ret => if s.sp == 0 {
            Err(Chip8Error::StackUnderflow)
        } else {
            Ok(ret_spec(s))
        },
        Instruction::Jp { addr } => Ok(jp_spec(s, addr)),
        Instruction::Call { addr } => if s.sp >= STACK_DEPTH {
            Err(Chip8Error::StackOverflow)
        } else {
            Ok(call_spec(s, addr))
        },
        Instruction::SeImd { cmp_val, reg_num } => Ok(se_imd_spec(s, reg_num, cmp_val)),
        Instruction::SneImd { cmp_val, reg_num } => Ok(sne_imd_spec(s, reg_num, cmp_val)),
        Instruction::SeReg { reg_num_x, reg_num_y } => Ok(se_reg_spec(s, reg_num_x, reg_num_y)),
        Instruction::LdImd { reg_num, byte } => Ok(ld_imd_spec(s, reg_num, byte)),
        Instruction::AddImd { reg_num, byte } => Ok(add_imd_spec(s, reg_num, byte)),
        Instruction::Unrecognized => Ok(s),
    }
}

/// Whether both bytes of the instruction at the program counter lie in memory.
pub open spec fn fetch_in_range(s: MachineState) -> bool {
    s.pc + 1 < MEMORY_SIZE
}

/// The instruction at the program counter.
pub open spec fn fetched(s: MachineState) -> Instruction {
    decode_word(read_word(s.memory, s.pc as int))
}

/// `s` with the program counter moved past one instruction.
pub open spec fn advance(s: MachineState) -> MachineState {
    MachineState { pc: (s.pc + INSTRUCTION_WIDTH) as u16, ..s }
}

/// One step: fetch the word at the program counter, decode it, move the
/// program counter past it, then execute it. An unrecognized word halts the
/// machine; a fault leaves the machine as it was when the fault was found.
pub open spec fn step_spec(s: MachineState) -> (MachineState, Result<StepStatus, Chip8Error>) {
    if !fetch_in_range(s) {
        (s, Err(Chip8Error::PcOutOfRange))
    } else if fetched(s) == Instruction::Unrecognized {
        (advance(s), Ok(StepStatus::Halted))
    } else {
        match execute(advance(s), fetched(s)) {
            Ok(t) => (t, Ok(StepStatus::Executed)),
            Err(e) => (advance(s), Err(e)),
        }
    }
}

/// Steps from `s` until the machine halts or faults, taking at most `fuel` steps.
pub open spec fn run_spec(s: MachineState, fuel: nat) -> (
    MachineState,
    Result<RunStatus, Chip8Error>,
)
    decreases fuel,
{
    if fuel == 0 {
        (s, Ok(RunStatus::StepLimit))
    } else {
        let (t, r) = step_spec(s);
        match r {
            Err(e) => (t, Err(e)),
            Ok(StepStatus::Halted) => (t, Ok(RunStatus::Halted)),
            Ok(StepStatus::Executed) => run_spec(t, (fuel - 1) as nat),
        }
    }
}

impl Chip8 {
    /// Fetches, decodes and executes one instruction.
    pub fn step(&mut self) -> (r: Result<StepStatus, Chip8Error>)
        requires
            old(self).wf(),
        ensures
            final(self)@ == step_spec(old(self)@).0,
            r == step_spec(old(self)@).1,
            final(self).wf(),
    {
        if self.pc as usize + 1 >= MEMORY_SIZE {
            return Err(Chip8Error::PcOutOfRange);
        }
        let word = self.mem_read_u16(self.pc);
        let instr = self.decode(word);
        proof {
            lemma_decode_operands_in_range(word);
        }
        self.pc = self.pc + INSTRUCTION_WIDTH;
        match instr {
            Instruction::Cls => self.cls(),
            Instruction::Ret => {
                if self.sp == 0 {
                    return Err(Chip8Error::StackUnderflow);
                }
                self.ret()
            },
            Instruction::Jp { addr } => self.jp(addr),
            Instruction::Call { addr } => {
                if self.sp as usize >= STACK_DEPTH {
                    return Err(Chip8Error::StackOverflow);
                }
                self.call(addr)
            },
            Instruction::SeImd { cmp_val, reg_num } => self.se_imd(reg_num, cmp_val),
            Instruction::SneImd { cmp_val, reg_num } => self.sne_imd(reg_num, cmp_val),
            Instruction::SeReg { reg_num_x, reg_num_y } => self.se_reg(reg_num_x, reg_num_y),
            Instruction::LdImd { reg_num, byte } => self.ld_imd(reg_num, byte),
            Instruction::AddImd { reg_num, byte } => self.add_imd(reg_num, byte),
            Instruction::Unrecognized => {
                return Ok(StepStatus::Halted);
            },
        }
        Ok(StepStatus::Executed)
    }

    /// Steps until the machine halts or faults, taking at most `max_steps`
    /// steps; a host bounds a program that would never halt this way.
    pub fn run_steps(&mut self, max_steps: u64) -> (r: Result<RunStatus, Chip8Error>)
        requires
            old(self).wf(),
        ensures
            final(self)@ == run_spec(old(self)@, max_steps as nat).0,
            r == run_spec(old(self)@, max_steps as nat).1,
            final(self).wf(),
    {
        let mut left: u64 = max_steps;
        while left > 0
            invariant
                self.wf(),
                run_spec(self@, left as nat) == run_spec(old(self)@, max_steps as nat),
            decreases left,
        {
            match self.step() {
                Err(e) => {
                    return Err(e);
                },
                Ok(StepStatus::Halted) => {
                    return Ok(RunStatus::Halted);
                },
                Ok(StepStatus::Executed) => {},
            }
            left = left - 1;
        }
        Ok(RunStatus::StepLimit)
    }

    /// Runs from the program counter until the machine fetches an
    /// unrecognized word, or faults. The step budget is `u64::MAX`, which no
    /// real run exhausts.
    pub fn run(&mut self) -> (r: Result<RunStatus, Chip8Error>)
        requires
            old(self).wf(),
        ensures
            final(self)@ == run_spec(old(self)@, u64::MAX as nat).0,
            r == run_spec(old(self)@, u64::MAX as nat).1,
            final(self).wf(),
    {
        self.run_steps(u64::MAX)
    }
}

} // verus!
