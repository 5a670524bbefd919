use chip8::{Chip8, Chip8Error, Instruction, RunStatus, StepStatus};

fn make_video_dirty(chip8: &mut Chip8) {
    chip8.video.fill(4);
}

fn is_video_cleared(chip8: &Chip8) -> bool {
    chip8.video == [0; 64 * 32]
}

#[test]
fn cls() {
    let mut chip8 = Chip8::new();
    let program: Vec<u16> = vec![0x00E0];
    let _ = chip8.load(&program);
    make_video_dirty(&mut chip8);
    let _ = chip8.run();
    assert!(is_video_cleared(&chip8));
}

#[test]
fn ret() {
    let mut chip8 = Chip8::new();
    chip8.push(0xFF0);
    let program: Vec<u16> = vec![0x00E0, 0x00E0, 0x00EE];
    let _ = chip8.load(&program);
    let _ = chip8.run();
    assert!(chip8.pc == 0xFF2);
}

#[test]
fn jp() {
    let mut chip8 = Chip8::new();
    let program: Vec<u16> = vec![0x1204, 0x00E0];
    make_video_dirty(&mut chip8);
    let _ = chip8.load(&program);
    let _ = chip8.run();
    assert!(!is_video_cleared(&chip8));
}

#[test]
fn call() {
    let mut chip8 = Chip8::new();
    let program: Vec<u16> = vec![0x2204, 0x00E0, 0x00E0];
    let _ = chip8.load(&program);
    let _ = chip8.run();
    assert!(chip8.pop() == 0x202);
}

#[test]
fn seimd_eq() {
    let mut chip8 = Chip8::new();
    chip8.registers[4] = 17;
    let program: Vec<u16> = vec![0x3411, 0x00E0];
    make_video_dirty(&mut chip8);
    let _ = chip8.load(&program);
    let _ = chip8.run();
    assert!(!is_video_cleared(&chip8));
}

#[test]
fn seimd_neq() {
    let mut chip8 = Chip8::new();
    chip8.registers[4] = 16;
    let program: Vec<u16> = vec![0x3411, 0x00E0];
    make_video_dirty(&mut chip8);
    let _ = chip8.load(&program);
    let _ = chip8.run();
    assert!(is_video_cleared(&chip8));
}

#[test]
fn sneimd_eq() {
    let mut chip8 = Chip8::new();
    chip8.registers[4] = 17;
    let program: Vec<u16> = vec![0x4411, 0x00E0];
    make_video_dirty(&mut chip8);
    let _ = chip8.load(&program);
    let _ = chip8.run();
    assert!(is_video_cleared(&chip8));
}

#[test]
fn sneimd_neq() {
    let mut chip8 = Chip8::new();
    chip8.registers[4] = 16;
    let program: Vec<u16> = vec![0x4411, 0x00E0];
    make_video_dirty(&mut chip8);
    let _ = chip8.load(&program);
    let _ = chip8.run();
    assert!(!is_video_cleared(&chip8));
}

#[test]
fn sereg_eq() {
    let mut chip8 = Chip8::new();
    chip8.registers[4] = 17;
    chip8.registers[3] = 17;
    let program: Vec<u16> = vec![0x5430, 0x00E0];
    make_video_dirty(&mut chip8);
    let _ = chip8.load(&program);
    let _ = chip8.run();
    assert!(!is_video_cleared(&chip8));
}

#[test]
fn sereg_neq() {
    let mut chip8 = Chip8::new();
    chip8.registers[4] = 17;
    chip8.registers[3] = 16;
    let program: Vec<u16> = vec![0x5430, 0x00E0];
    make_video_dirty(&mut chip8);
    let _ = chip8.load(&program);
    let _ = chip8.run();
    assert!(is_video_cleared(&chip8));
}

#[test]
fn ldimd() {
    let mut chip8 = Chip8::new();
    chip8.registers[0] = 7;
    let program: Vec<u16> = vec![0x6019];
    let _ = chip8.load(&program);
    let _ = chip8.run();
    assert!(chip8.registers[0] == 0x19);
    for i in 1..chip8.registers.len() {
        assert!(chip8.registers[i as usize] == 0);
    }
}

#[test]
fn addimd() {
    let mut chip8 = Chip8::new();
    chip8.registers[0] = 7;
    let program: Vec<u16> = vec![0x7019];
    let _ = chip8.load(&program);
    let _ = chip8.run();
    assert!(chip8.registers[0] == 0x19 + 0x7);
    for i in 1..chip8.registers.len() {
        assert!(chip8.registers[i as usize] == 0);
    }
}

#[test]
fn word_round_trip() {
    let mut chip8 = Chip8::new();
    for &(addr, value) in &[(0x300u16, 0x1234u16), (0x000, 0xFFFF), (0xFFE, 0x00A5), (0x400, 0)] {
        chip8.mem_write_u16(addr, value);
        assert_eq!(chip8.mem_read_u16(addr), value);
    }
}

#[test]
fn word_write_is_big_endian() {
    let mut chip8 = Chip8::new();
    chip8.mem_write_u16(0x300, 0x1234);
    assert_eq!(chip8.mem_read(0x300), 0x12);
    assert_eq!(chip8.mem_read(0x301), 0x34);
    assert_eq!(chip8.memory[0x2FF], 0);
    assert_eq!(chip8.memory[0x302], 0);
}

#[test]
fn clear_screen_blanks_any_content() {
    let mut chip8 = Chip8::new();
    for (i, cell) in chip8.video.iter_mut().enumerate() {
        *cell = i as u32 + 1;
    }
    chip8.cls();
    assert!(is_video_cleared(&chip8));
}

#[test]
fn call_then_return_resumes_after_call() {
    let mut chip8 = Chip8::new();
    let program: Vec<u16> = vec![0x2206, 0x00E0, 0x0000, 0x00EE];
    make_video_dirty(&mut chip8);
    assert_eq!(chip8.load(&program), Ok(()));
    assert_eq!(chip8.step(), Ok(StepStatus::Executed));
    assert_eq!(chip8.pc, 0x206);
    assert_eq!(chip8.sp, 1);
    assert_eq!(chip8.step(), Ok(StepStatus::Executed));
    assert_eq!(chip8.pc, 0x202);
    assert_eq!(chip8.sp, 0);
    assert_eq!(chip8.run(), Ok(RunStatus::Halted));
    assert!(is_video_cleared(&chip8));
    assert_eq!(chip8.pc, 0x206);
}

#[test]
fn skip_equal_immediate_advances_four_or_two() {
    let mut chip8 = Chip8::new();
    chip8.registers[9] = 0xAB;
    let _ = chip8.load(&vec![0x39AB]);
    assert_eq!(chip8.step(), Ok(StepStatus::Executed));
    assert_eq!(chip8.pc, 0x204);

    let mut chip8 = Chip8::new();
    chip8.registers[9] = 0xAA;
    let _ = chip8.load(&vec![0x39AB]);
    assert_eq!(chip8.step(), Ok(StepStatus::Executed));
    assert_eq!(chip8.pc, 0x202);
}

#[test]
fn load_then_add_wraps_without_flag() {
    let mut chip8 = Chip8::new();
    let _ = chip8.load(&vec![0x65F0, 0x7520]);
    assert_eq!(chip8.run(), Ok(RunStatus::Halted));
    assert_eq!(chip8.registers[5], 0x10);
    assert_eq!(chip8.registers[15], 0);
    for i in (0..16).filter(|&i| i != 5) {
        assert_eq!(chip8.registers[i], 0);
    }
}

#[test]
fn add_on_flag_register_wraps() {
    let mut chip8 = Chip8::new();
    chip8.ld_imd(15, 0xFF);
    chip8.add_imd(15, 2);
    assert_eq!(chip8.registers[15], 1);
}

#[test]
fn ld_reg_copies_register() {
    let mut chip8 = Chip8::new();
    chip8.registers[2] = 0x42;
    chip8.registers[7] = 0x13;
    chip8.ld_reg(7, 2);
    assert_eq!(chip8.registers[7], 0x42);
    assert_eq!(chip8.registers[2], 0x42);
}

#[test]
fn new_installs_glyphs_and_origin() {
    let chip8 = Chip8::new();
    assert_eq!(chip8.pc, 0x200);
    assert_eq!(chip8.sp, 0);
    assert_eq!(&chip8.memory[0x50..0x55], &[0xF0, 0x90, 0x90, 0x90, 0xF0]);
    assert_eq!(&chip8.memory[0x9B..0xA0], &[0xF0, 0x80, 0xF0, 0x80, 0x80]);
    assert_eq!(chip8.memory[0x4F], 0);
    assert_eq!(chip8.memory[0xA0], 0);
    assert!(chip8.registers.iter().all(|&r| r == 0));
}

#[test]
fn reset_keeps_registers_and_video() {
    let mut chip8 = Chip8::new();
    chip8.registers[3] = 9;
    chip8.video[10] = 1;
    chip8.pc = 0x300;
    chip8.memory[0x50] = 0;
    chip8.reset();
    assert_eq!(chip8.pc, 0x200);
    assert_eq!(chip8.memory[0x50], 0xF0);
    assert_eq!(chip8.registers[3], 9);
    assert_eq!(chip8.video[10], 1);
}

#[test]
fn load_writes_words_big_endian() {
    let mut chip8 = Chip8::new();
    chip8.memory[0x204] = 0x77;
    assert_eq!(chip8.load(&vec![0xABCD, 0x0102]), Ok(()));
    assert_eq!(&chip8.memory[0x200..0x205], &[0xAB, 0xCD, 0x01, 0x02, 0x77]);
}

#[test]
fn load_accepts_program_filling_memory() {
    let mut chip8 = Chip8::new();
    let program: Vec<u16> = vec![0x1234; 1792];
    assert_eq!(chip8.load(&program), Ok(()));
    assert_eq!(chip8.memory[0xFFE], 0x12);
    assert_eq!(chip8.memory[0xFFF], 0x34);
}

#[test]
fn load_refuses_program_too_large() {
    let mut chip8 = Chip8::new();
    let program: Vec<u16> = vec![0x1234; 1793];
    assert_eq!(chip8.load(&program), Err(Chip8Error::ProgramTooLarge));
    assert!(chip8.memory[0x200..].iter().all(|&b| b == 0));
}

#[test]
fn load_empty_program_changes_nothing() {
    let mut chip8 = Chip8::new();
    assert_eq!(chip8.load(&vec![]), Ok(()));
    assert!(chip8.memory[0x200..].iter().all(|&b| b == 0));
    assert_eq!(chip8.run(), Ok(RunStatus::Halted));
    assert_eq!(chip8.pc, 0x202);
}

#[test]
fn return_on_empty_stack_faults() {
    let mut chip8 = Chip8::new();
    let _ = chip8.load(&vec![0x00EE]);
    assert_eq!(chip8.run(), Err(Chip8Error::StackUnderflow));
    assert_eq!(chip8.sp, 0);
}

#[test]
fn call_on_full_stack_faults() {
    let mut chip8 = Chip8::new();
    let _ = chip8.load(&vec![0x2200]);
    assert_eq!(chip8.run(), Err(Chip8Error::StackOverflow));
    assert_eq!(chip8.sp, 16);
    assert!(chip8.stack.iter().all(|&a| a == 0x202));
}

#[test]
fn fetch_past_memory_faults() {
    let mut chip8 = Chip8::new();
    let _ = chip8.load(&vec![0x1FFF]);
    assert_eq!(chip8.run(), Err(Chip8Error::PcOutOfRange));
    assert_eq!(chip8.pc, 0xFFF);
}

#[test]
fn run_steps_stops_at_budget() {
    let mut chip8 = Chip8::new();
    let _ = chip8.load(&vec![0x1200]);
    assert_eq!(chip8.run_steps(10), Ok(RunStatus::StepLimit));
    assert_eq!(chip8.pc, 0x200);
    assert_eq!(chip8.run_steps(0), Ok(RunStatus::StepLimit));
}

#[test]
fn decode_each_form() {
    let mut chip8 = Chip8::new();
    assert_eq!(chip8.decode(0x00E0), Instruction::Cls);
    assert_eq!(chip8.decode(0x00EE), Instruction::Ret);
    assert_eq!(chip8.decode(0x1ABC), Instruction::Jp { addr: 0xABC });
    assert_eq!(chip8.decode(0x2ABC), Instruction::Call { addr: 0xABC });
    assert_eq!(chip8.decode(0x3A42), Instruction::SeImd { cmp_val: 0x42, reg_num: 0xA });
    assert_eq!(chip8.decode(0x4B42), Instruction::SneImd { cmp_val: 0x42, reg_num: 0xB });
    assert_eq!(chip8.decode(0x5CD0), Instruction::SeReg { reg_num_x: 0xC, reg_num_y: 0xD });
    assert_eq!(chip8.decode(0x6E19), Instruction::LdImd { reg_num: 0xE, byte: 0x19 });
    assert_eq!(chip8.decode(0x7F19), Instruction::AddImd { reg_num: 0xF, byte: 0x19 });
    assert_eq!(chip8.decode(0x0000), Instruction::Unrecognized);
    assert_eq!(chip8.decode(0x00E1), Instruction::Unrecognized);
    assert_eq!(chip8.decode(0x8120), Instruction::Unrecognized);
    assert_eq!(chip8.decode(0xF000), Instruction::Unrecognized);
}

#[test]
fn skip_not_equal_and_register_compare_handlers() {
    let mut chip8 = Chip8::new();
    chip8.registers[1] = 5;
    chip8.sne_imd(1, 6);
    assert_eq!(chip8.pc, 0x202);
    chip8.sne_imd(1, 5);
    assert_eq!(chip8.pc, 0x202);
    chip8.registers[2] = 5;
    chip8.se_reg(1, 2);
    assert_eq!(chip8.pc, 0x204);
    chip8.jp(0x300);
    assert_eq!(chip8.pc, 0x300);
}
