use vstd::prelude::*;

verus! {

/// Bytes of addressable memory.
pub const MEMORY_SIZE: usize = 4096;

/// Number of general-purpose registers, and of keypad slots.
pub const REGISTER_COUNT: usize = 16;

/// Slots of the call stack.
pub const STACK_DEPTH: usize = 16;

/// Framebuffer width and height, in cells.
pub const VIDEO_WIDTH: usize = 64;

pub const VIDEO_HEIGHT: usize = 32;

/// Cells of the framebuffer.
pub const VIDEO_CELLS: usize = VIDEO_WIDTH * VIDEO_HEIGHT;

/// Address at which a loaded program starts, and where execution begins.
pub const START_ADDRESS: u16 = 0x200;

/// Address and size of the built-in hexadecimal glyph table.
pub const FONTSET_START_ADDRESS: u16 = 0x50;

pub const FONTSET_SIZE: u16 = 80;

/// Width of one instruction in bytes.
pub const INSTRUCTION_WIDTH: u16 = 2;

/// The CHIP-8 machine: registers, memory, call stack, timers, keypad and
/// framebuffer.
pub struct Chip8 {
    pub registers: [u8; 16],
    pub memory: [u8; 4096],
    pub index: u16,
    pub pc: u16,
    pub stack: [u16; 16],
    pub sp: u8,
    pub delay_timer: u8,
    pub sound_timer: u8,
    pub keypad: [u8; 16],
    pub video: [u32; 2048],
}

/// The machine as a mathematical value.
pub struct MachineState {
    pub registers: Seq<u8>,
    pub memory: Seq<u8>,
    pub index: u16,
    pub pc: u16,
    pub stack: Seq<u16>,
    pub sp: u8,
    pub delay_timer: u8,
    pub sound_timer: u8,
    pub keypad: Seq<u8>,
    pub video: Seq<u32>,
}

impl MachineState {
    /// Every component has its hardware size and the stack pointer stays
    /// within the stack.
    pub open spec fn wf(self) -> bool {
        &&& self.registers.len() == REGISTER_COUNT
        &&& self.memory.len() == MEMORY_SIZE
        &&& self.stack.len() == STACK_DEPTH
        &&& self.keypad.len() == REGISTER_COUNT
        &&& self.video.len() == VIDEO_CELLS
        &&& self.sp <= STACK_DEPTH
    }
}

impl View for Chip8 {
    type V = MachineState;

    open spec fn view(&self) -> MachineState {
        MachineState {
            registers: self.registers@,
            memory: self.memory@,
            index: self.index,
            pc: self.pc,
            stack: self.stack@,
            sp: self.sp,
            delay_timer: self.delay_timer,
            sound_timer: self.sound_timer,
            keypad: self.keypad@,
            video: self.video@,
        }
    }
}

/// The 16-bit word stored big-endian at `a`: the byte at `a` is the high
/// byte, the byte at `a + 1` the low one.
pub open spec fn read_word(mem: Seq<u8>, a: int) -> u16 {
    (mem[a] * 256 + mem[a + 1]) as u16
}

/// `mem` with `v` stored big-endian at `a`.
pub open spec fn write_word(mem: Seq<u8>, a: int, v: u16) -> Seq<u8> {
    mem.update(a, (v / 256) as u8).update(a + 1, (v % 256) as u8)
}

impl Chip8 {
    pub open spec fn wf(&self) -> bool {
        self@.wf()
    }

    /// The byte at `addr`.
    pub fn mem_read(&self, addr: u16) -> (r: u8)
        requires
            addr < MEMORY_SIZE,
        ensures
            r == self@.memory[addr as int],
    {
        self.memory[addr as usize]
    }

    /// Stores `data` at `addr`; nothing else changes.
    pub fn mem_write(&mut self, addr: u16, data: u8)
        requires
            addr < MEMORY_SIZE,
        ensures
            final(self)@ == (MachineState {
                memory: old(self)@.memory.update(addr as int, data),
                ..old(self)@
            }),
    {
        self.memory[addr as usize] = data;
        assert(self@.memory =~= old(self)@.memory.update(addr as int, data));
    }

    /// The big-endian word at `pos`.
    pub fn mem_read_u16(&self, pos: u16) -> (r: u16)
        requires
            pos + 1 < MEMORY_SIZE,
        ensures
            r == read_word(self@.memory, pos as int),
    {
        let hi = self.mem_read(pos) as u16;
        let lo = self.mem_read(pos + 1) as u16;
        assert((hi << 8u16) | lo == hi * 256 + lo) by (bit_vector)
            requires
                hi < 256,
                lo < 256,
        ;
        (hi << 8u16) | lo
    }

    /// Stores `data` big-endian at `pos`; nothing else changes.
    pub fn mem_write_u16(&mut self, pos: u16, data: u16)
        requires
            pos + 1 < MEMORY_SIZE,
        ensures
            final(self)@ == (MachineState {
                memory: write_word(old(self)@.memory, pos as int, data),
                ..old(self)@
            }),
    {
        let hi = (data >> 8u16) as u8;
        let lo = (data & 0xffu16) as u8;
        assert(hi == data / 256 && lo == data % 256) by (bit_vector)
            requires
                hi == (data >> 8u16) as u8,
                lo == (data & 0xffu16) as u8,
        ;
        self.mem_write(pos, hi);
        self.mem_write(pos + 1, lo);
    }
}

/// A fatal condition, reported to the caller instead of corrupting state.
#[derive(PartialEq, Eq, Structural, Clone, Copy, Debug)]
pub enum Chip8Error {
    /// A call with every stack slot already taken.
    StackOverflow,
    /// A return with an empty stack.
    StackUnderflow,
    /// An instruction fetch from outside memory.
    PcOutOfRange,
    /// A program longer than the memory past the program origin.
    ProgramTooLarge,
}

/// The built-in sprites of the hexadecimal digits 0 to F, five bytes each.
pub open spec fn glyph_table() -> Seq<u8> {
    seq![
        0xF0u8, 0x90, 0x90, 0x90, 0xF0, 0x20, 0x60, 0x20, 0x20, 0x70,
        0xF0, 0x10, 0xF0, 0x80, 0xF0, 0xF0, 0x10, 0xF0, 0x10, 0xF0,
        0x90, 0x90, 0xF0, 0x10, 0x10, 0xF0, 0x80, 0xF0, 0x10, 0xF0,
        0xF0, 0x80, 0xF0, 0x90, 0xF0, 0xF0, 0x10, 0x20, 0x40, 0x40,
        0xF0, 0x90, 0xF0, 0x90, 0xF0, 0xF0, 0x90, 0xF0, 0x10, 0xF0,
        0xF0, 0x90, 0xF0, 0x90, 0x90, 0xE0, 0x90, 0xE0, 0x90, 0xE0,
        0xF0, 0x80, 0x80, 0x80, 0xF0, 0xE0, 0x90, 0x90, 0x90, 0xE0,
        0xF0, 0x80, 0xF0, 0x80, 0xF0, 0xF0, 0x80, 0xF0, 0x80, 0x80,
    ]
}

/// The glyph table as an array.
fn fontset() -> (r: [u8; 80])
    ensures
        r@ == glyph_table(),
{
    let r: [u8; 80] = [
        0xF0, 0x90, 0x90, 0x90, 0xF0, // 0
        0x20, 0x60, 0x20, 0x20, 0x70, // 1
        0xF0, 0x10, 0xF0, 0x80, 0xF0, // 2
        0xF0, 0x10, 0xF0, 0x10, 0xF0, // 3
        0x90, 0x90, 0xF0, 0x10, 0x10, // 4
        0xF0, 0x80, 0xF0, 0x10, 0xF0, // 5
        0xF0, 0x80, 0xF0, 0x90, 0xF0, // 6
        0xF0, 0x10, 0x20, 0x40, 0x40, // 7
        0xF0, 0x90, 0xF0, 0x90, 0xF0, // 8
        0xF0, 0x90, 0xF0, 0x10, 0xF0, // 9
        0xF0, 0x90, 0xF0, 0x90, 0x90, // A
        0xE0, 0x90, 0xE0, 0x90, 0xE0, // B
        0xF0, 0x80, 0x80, 0x80, 0xF0, // C
        0xE0, 0x90, 0x90, 0x90, 0xE0, // D
        0xF0, 0x80, 0xF0, 0x80, 0xF0, // E
        0xF0, 0x80, 0xF0, 0x80, 0x80, // F
    ];
    assert(r@ =~= glyph_table());
    r
}

/// `mem` with the glyph table installed at its fixed address.
pub open spec fn with_glyphs(mem: Seq<u8>) -> Seq<u8> {
    Seq::new(
        mem.len(),
        |a: int|
            if FONTSET_START_ADDRESS <= a < FONTSET_START_ADDRESS + FONTSET_SIZE {
                glyph_table()[a - FONTSET_START_ADDRESS]
            } else {
                mem[a]
            },
    )
}

/// Byte `j` of `program` laid out big-endian, one word after another.
pub open spec fn program_byte(program: Seq<u16>, j: int) -> u8 {
    if j % 2 == 0 {
        (program[j / 2] / 256) as u8
    } else {
        (program[j / 2] % 256) as u8
    }
}

/// Whether `program` fits in the memory past the program origin.
pub open spec fn program_fits(program: Seq<u16>) -> bool {
    START_ADDRESS + 2 * program.len() <= MEMORY_SIZE
}

/// `mem` with `program` copied in from the program origin on.
pub open spec fn loaded_memory(mem: Seq<u8>, program: Seq<u16>) -> Seq<u8> {
    Seq::new(
        mem.len(),
        |a: int|
            if START_ADDRESS <= a < START_ADDRESS + 2 * program.len() {
                program_byte(program, a - START_ADDRESS)
            } else {
                mem[a]
            },
    )
}

/// The zero-initialized machine, before reset.
pub open spec fn zero_state() -> MachineState {
    MachineState {
        registers: Seq::new(REGISTER_COUNT as nat, |i: int| 0u8),
        memory: Seq::new(MEMORY_SIZE as nat, |i: int| 0u8),
        index: 0,
        pc: 0,
        stack: Seq::new(STACK_DEPTH as nat, |i: int| 0u16),
        sp: 0,
        delay_timer: 0,
        sound_timer: 0,
        keypad: Seq::new(REGISTER_COUNT as nat, |i: int| 0u8),
        video: Seq::new(VIDEO_CELLS as nat, |i: int| 0u32),
    }
}

pub open spec fn reset_spec(s: MachineState) -> MachineState {
    MachineState { pc: START_ADDRESS, memory: with_glyphs(s.memory), ..s }
}

impl Chip8 {
    /// A zero-initialized machine, then reset.
    pub fn new() -> (r: Chip8)
        ensures
            r@ == reset_spec(zero_state()),
            r.wf(),
    {
        let mut new_chip8 = Chip8 {
            registers: [0; 16],
            memory: [0; 4096],
            index: 0,
            pc: 0,
            stack: [0; 16],
            sp: 0,
            delay_timer: 0,
            sound_timer: 0,
            keypad: [0; 16],
            video: [0; 2048],
        };
        assert(new_chip8.registers@ =~= zero_state().registers);
        assert(new_chip8.memory@ =~= zero_state().memory);
        assert(new_chip8.stack@ =~= zero_state().stack);
        assert(new_chip8.keypad@ =~= zero_state().keypad);
        assert(new_chip8.video@ =~= zero_state().video);
        new_chip8.reset();
        new_chip8
    }

    /// Installs the glyph table and puts the program counter at the program
    /// origin; registers, stack and framebuffer are left as they are.
    pub fn reset(&mut self)
        ensures
            final(self)@ == reset_spec(old(self)@),
    {
        self.pc = START_ADDRESS;
        let font = fontset();
        let mut i: usize = 0;
        while i < FONTSET_SIZE as usize
            invariant
                i <= FONTSET_SIZE,
                font@ == glyph_table(),
                self@ == (MachineState { memory: self@.memory, pc: START_ADDRESS, ..old(self)@ }),
                forall|a: int|
                    0 <= a < MEMORY_SIZE ==> #[trigger] self.memory[a] == (
                    if FONTSET_START_ADDRESS <= a < FONTSET_START_ADDRESS + i {
                        glyph_table()[a - FONTSET_START_ADDRESS]
                    } else {
                        old(self).memory[a]
                    }),
            decreases FONTSET_SIZE - i,
        {
            self.memory[FONTSET_START_ADDRESS as usize + i] = font[i];
            i = i + 1;
        }
        assert(self@.memory =~= with_glyphs(old(self)@.memory));
    }

    /// Copies `program` into memory from the program origin on, each word as
    /// two bytes, high byte first. A program that does not fit is refused and
    /// memory is left as it was.
    pub fn load(&mut self, program: &Vec<u16>) -> (r: Result<(), Chip8Error>)
        ensures
            program_fits(program@) ==> r == Ok::<(), Chip8Error>(()) && final(self)@ == (
            MachineState { memory: loaded_memory(old(self)@.memory, program@), ..old(self)@ }),
            !program_fits(program@) ==> r == Err::<(), Chip8Error>(Chip8Error::ProgramTooLarge)
                && *final(self) == *old(self),
    {
        if program.len() > (MEMORY_SIZE - START_ADDRESS as usize) / 2 {
            return Err(Chip8Error::ProgramTooLarge);
        }
        let mut k: usize = 0;
        while k < program.len()
            invariant
                k <= program.len(),
                program_fits(program@),
                self@ == (MachineState { memory: self@.memory, ..old(self)@ }),
                forall|a: int|
                    0 <= a < MEMORY_SIZE ==> #[trigger] self.memory[a] == (
                    if START_ADDRESS <= a < START_ADDRESS + 2 * k {
                        program_byte(program@, a - START_ADDRESS)
                    } else {
                        old(self).memory[a]
                    }),
            decreases program.len() - k,
        {
            let pos = START_ADDRESS + 2 * (k as u16);
            self.mem_write_u16(pos, program[k]);
            assert forall|a: int| 0 <= a < MEMORY_SIZE implies #[trigger] self.memory[a] == (
                if START_ADDRESS <= a < START_ADDRESS + 2 * (k + 1) {
                    program_byte(program@, a - START_ADDRESS)
                } else {
                    old(self).memory[a]
                }) by {
                if a == pos || a == pos + 1 {
                    assert((a - START_ADDRESS) / 2 == k);
                }
            }
            k = k + 1;
        }
        assert(self@.memory =~= loaded_memory(old(self)@.memory, program@));
        Ok(())
    }
}

} // verus!
