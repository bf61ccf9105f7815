use chip8::decode::decode;
use chip8::driver::{DisplayEvent, HaltReason, Machine, Mode};
use chip8::error::Fault;
use chip8::execute::{execute, execute_with, Effect};
use chip8::opcode::OpCode;
use chip8::state::{fetch, State};
use chip8::util::get_bit;

fn run(cpu: &mut State, word: u16) -> Result<Effect, Fault> {
    let op = decode(cpu, word).unwrap();
    execute(cpu, op)
}

#[test]
fn new_state_is_zeroed() {
    let cpu = State::new();
    assert_eq!(cpu.program_counter, 0x200);
    assert!(cpu.memory.iter().all(|b| *b == 0));
    assert!(cpu.reg.iter().all(|b| *b == 0));
    assert!(cpu.screen.iter().all(|p| !*p));
    assert!(cpu.keys.iter().all(|k| !*k));
    assert!(cpu.stack.is_empty());
    assert_eq!((cpu.index_reg, cpu.delay_timer, cpu.sound_timer), (0, 0, 0));
}

#[test]
fn get_bit_reads_each_bit() {
    assert!(get_bit(0b1000_0001, 0));
    assert!(!get_bit(0b1000_0001, 1));
    assert!(get_bit(0b1000_0001, 7));
    assert!(!get_bit(0xff, 8));
}

#[test]
fn decode_address_and_fields() {
    let cpu = State::new();
    assert_eq!(decode(&cpu, 0x1abc), Ok(OpCode::Goto(0xabc)));
    assert_eq!(decode(&cpu, 0x2abc), Ok(OpCode::Call(0xabc)));
    assert_eq!(decode(&cpu, 0xaabc), Ok(OpCode::SetIndexRegToN(0xabc)));
    assert_eq!(decode(&cpu, 0xbabc), Ok(OpCode::JumpToAddrNPlusV0(0xabc)));
    assert_eq!(decode(&cpu, 0x00e0), Ok(OpCode::ClearScreen));
    assert_eq!(decode(&cpu, 0x00ee), Ok(OpCode::SubroutineRet));
    assert_eq!(decode(&cpu, 0x0123), Ok(OpCode::CallMCodeSubroutine(0x123)));
    assert_eq!(decode(&cpu, 0xd12f), Ok(OpCode::DrawSprite { vx: 1, vy: 2, height: 15 }));
    assert_eq!(decode(&cpu, 0x8ab7), Ok(OpCode::SubtractRegFromRegAndStoreInReg { vx: 0xa, vy: 0xb }));
    assert_eq!(decode(&cpu, 0xc3a5), Ok(OpCode::Rand { vx: 3, n: 0xa5 }));
    assert_eq!(decode(&cpu, 0xe59e), Ok(OpCode::SkipNextIfKeyPressed(5)));
    assert_eq!(decode(&cpu, 0xf733), Ok(OpCode::BinaryCodedDecimalConversion(7)));
}

#[test]
fn decode_unknown_words() {
    let mut cpu = State::new();
    cpu.program_counter = 0x234;
    for word in [0x8008u16, 0x9001, 0xe000, 0xf000, 0xf0ff, 0x800f] {
        assert_eq!(decode(&cpu, word), Err(Fault::UnknownOpcode { word, pc: 0x234 }));
    }
}

#[test]
fn add_carry_flags() {
    let mut cpu = State::new();
    cpu.reg[0] = 5;
    cpu.reg[1] = 10;
    run(&mut cpu, 0x8014).unwrap();
    assert_eq!((cpu.reg[0], cpu.reg[15]), (15, 0));
    cpu.reg[1] = 255;
    run(&mut cpu, 0x8014).unwrap();
    assert_eq!((cpu.reg[0], cpu.reg[15]), (14, 1));
}

#[test]
fn subtract_borrow_flags() {
    let mut cpu = State::new();
    cpu.reg[0] = 0;
    cpu.reg[1] = 5;
    run(&mut cpu, 0x8015).unwrap();
    assert_eq!((cpu.reg[0], cpu.reg[15]), (251, 1));
    cpu.reg[0] = 20;
    cpu.reg[1] = 5;
    run(&mut cpu, 0x8015).unwrap();
    assert_eq!((cpu.reg[0], cpu.reg[15]), (15, 0));
}

#[test]
fn reverse_subtract_flags() {
    let mut cpu = State::new();
    cpu.reg[0] = 2;
    cpu.reg[1] = 3;
    run(&mut cpu, 0x8017).unwrap();
    assert_eq!((cpu.reg[0], cpu.reg[15]), (1, 0));
    cpu.reg[0] = 5;
    cpu.reg[1] = 0;
    run(&mut cpu, 0x8017).unwrap();
    assert_eq!((cpu.reg[0], cpu.reg[15]), (251, 1));
}

#[test]
fn set_then_add_wraps_without_flag() {
    let mut cpu = State::new();
    cpu.reg[15] = 7;
    run(&mut cpu, 0x63c8).unwrap();
    run(&mut cpu, 0x7350).unwrap();
    assert_eq!(cpu.reg[3], ((0xc8u16 + 0x50) % 256) as u8);
    assert_eq!(cpu.reg[15], 7);
}

#[test]
fn shifts_capture_bit_before_shifting() {
    let mut cpu = State::new();
    cpu.reg[2] = 0x81;
    run(&mut cpu, 0x8206).unwrap();
    assert_eq!((cpu.reg[2], cpu.reg[15]), (0x40, 1));
    cpu.reg[2] = 0x81;
    run(&mut cpu, 0x820e).unwrap();
    assert_eq!((cpu.reg[2], cpu.reg[15]), (0x02, 1));
    cpu.reg[2] = 0x40;
    run(&mut cpu, 0x820e).unwrap();
    assert_eq!((cpu.reg[2], cpu.reg[15]), (0x80, 0));
}

#[test]
fn skip_not_taken_keeps_counter() {
    let mut cpu = State::new();
    cpu.reg[0] = 0xff;
    run(&mut cpu, 0x40ff).unwrap();
    assert_eq!(cpu.program_counter, 0x200);
    run(&mut cpu, 0x30ff).unwrap();
    assert_eq!(cpu.program_counter, 0x202);
}

#[test]
fn return_with_empty_stack_faults() {
    let mut cpu = State::new();
    assert_eq!(run(&mut cpu, 0x00ee), Err(Fault::StackUnderflow { pc: 0x200 }));
    assert_eq!(cpu.program_counter, 0x200);
}

#[test]
fn seventeenth_call_faults() {
    let mut cpu = State::new();
    for _ in 0..16 {
        run(&mut cpu, 0x2300).unwrap();
    }
    assert_eq!(cpu.stack.len(), 16);
    assert_eq!(run(&mut cpu, 0x2300), Err(Fault::StackOverflow { pc: 0x300 }));
    assert_eq!(cpu.stack.len(), 16);
}

#[test]
fn bcd_digits() {
    let mut cpu = State::new();
    cpu.index_reg = 0x400;
    cpu.reg[4] = 254;
    run(&mut cpu, 0xf433).unwrap();
    assert_eq!(&cpu.memory[0x400..0x403], &[2, 5, 4]);
    assert_eq!(cpu.index_reg, 0x400);
}

#[test]
fn memory_out_of_range_faults() {
    let mut cpu = State::new();
    cpu.index_reg = 0xffe;
    assert_eq!(run(&mut cpu, 0xf033), Err(Fault::MemoryOutOfRange { pc: 0x200, index: 0xffe }));
    assert_eq!(run(&mut cpu, 0xf255), Err(Fault::MemoryOutOfRange { pc: 0x200, index: 0xffe }));
    assert_eq!(run(&mut cpu, 0xd003), Err(Fault::MemoryOutOfRange { pc: 0x200, index: 0xffe }));
    assert!(run(&mut cpu, 0xf155).is_ok());
}

#[test]
fn store_then_load_round_trip() {
    let mut cpu = State::new();
    for i in 0..16 {
        cpu.reg[i] = (i as u8) * 3 + 1;
    }
    cpu.index_reg = 0x500;
    run(&mut cpu, 0xf755).unwrap();
    assert_eq!(cpu.memory[0x507], 22);
    assert_eq!(cpu.memory[0x508], 0);
    for i in 0..8 {
        cpu.reg[i] = 0;
    }
    run(&mut cpu, 0xf765).unwrap();
    for i in 0..16 {
        assert_eq!(cpu.reg[i], (i as u8) * 3 + 1);
    }
    assert_eq!(cpu.index_reg, 0x500);
}

#[test]
fn draw_twice_collides_and_erases() {
    let mut cpu = State::new();
    cpu.memory[0x300] = 0b1100_0000;
    cpu.memory[0x301] = 0b0000_0001;
    cpu.index_reg = 0x300;
    cpu.reg[1] = 10;
    cpu.reg[2] = 5;
    assert_eq!(run(&mut cpu, 0xd122), Ok(Effect::Redraw));
    assert_eq!(cpu.reg[15], 0);
    assert!(cpu.screen[5 * 64 + 10] && cpu.screen[5 * 64 + 11] && cpu.screen[6 * 64 + 17]);
    assert_eq!(cpu.screen.iter().filter(|p| **p).count(), 3);
    run(&mut cpu, 0xd122).unwrap();
    assert_eq!(cpu.reg[15], 1);
    assert!(cpu.screen.iter().all(|p| !*p));
}

#[test]
fn draw_clips_at_edges() {
    let mut cpu = State::new();
    cpu.memory[0x300] = 0xff;
    cpu.memory[0x301] = 0xff;
    cpu.index_reg = 0x300;
    cpu.reg[0] = 60 + 64;
    cpu.reg[1] = 31 + 32;
    run(&mut cpu, 0xd012).unwrap();
    let lit: Vec<usize> = (0..2048).filter(|i| cpu.screen[*i]).collect();
    assert_eq!(lit, vec![31 * 64 + 60, 31 * 64 + 61, 31 * 64 + 62, 31 * 64 + 63]);
    assert_eq!(cpu.reg[15], 0);
}

#[test]
fn clear_screen_clears() {
    let mut cpu = State::new();
    cpu.screen[100] = true;
    assert_eq!(run(&mut cpu, 0x00e0), Ok(Effect::Redraw));
    assert!(cpu.screen.iter().all(|p| !*p));
}

#[test]
fn machine_code_call_is_ignored() {
    let mut cpu = State::new();
    assert_eq!(run(&mut cpu, 0x0123), Ok(Effect::MachineCodeIgnored(0x123)));
    assert_eq!(cpu.program_counter, 0x200);
}

#[test]
fn rand_with_given_byte() {
    let mut cpu = State::new();
    execute_with(&mut cpu, OpCode::Rand { vx: 4, n: 0x0f }, 0xab).unwrap();
    assert_eq!(cpu.reg[4], 0x0b);
}

#[test]
fn rand_draws_varied_bytes() {
    let mut cpu = State::new();
    let mut seen = std::collections::HashSet::new();
    for _ in 0..64 {
        run(&mut cpu, 0xc0ff).unwrap();
        seen.insert(cpu.reg[0]);
    }
    assert!(seen.len() > 1);
}

#[test]
fn key_skips() {
    let mut cpu = State::new();
    cpu.reg[3] = 0xa;
    run(&mut cpu, 0xe39e).unwrap();
    assert_eq!(cpu.program_counter, 0x200);
    run(&mut cpu, 0xe3a1).unwrap();
    assert_eq!(cpu.program_counter, 0x202);
    cpu.keys[0xa] = true;
    run(&mut cpu, 0xe39e).unwrap();
    assert_eq!(cpu.program_counter, 0x204);
    run(&mut cpu, 0xe3a1).unwrap();
    assert_eq!(cpu.program_counter, 0x204);
}

#[test]
fn sprite_location_of_digit() {
    let mut cpu = State::new();
    cpu.reg[2] = 7;
    run(&mut cpu, 0xf229).unwrap();
    assert_eq!(cpu.index_reg, 35);
}

#[test]
fn fetch_reads_big_endian_and_advances() {
    let mut cpu = State::new();
    cpu.memory[0x200] = 0x12;
    cpu.memory[0x201] = 0x34;
    assert_eq!(fetch(&mut cpu), Ok(0x1234));
    assert_eq!(cpu.program_counter, 0x202);
    cpu.program_counter = 0xfff;
    assert_eq!(fetch(&mut cpu), Err(Fault::PcOutOfRange { pc: 0xfff }));
    assert_eq!(cpu.program_counter, 0xfff);
}

#[test]
fn load_bytes_places_program() {
    let mut cpu = State::new();
    assert_eq!(cpu.load_bytes(&[1, 2, 3]), 3);
    assert_eq!(&cpu.memory[0x1ff..0x204], &[0, 1, 2, 3, 0]);
    let big = vec![9u8; 5000];
    assert_eq!(cpu.load_bytes(&big), 4096 - 0x200);
    assert_eq!(cpu.memory[0xfff], 9);
    assert_eq!(cpu.memory[0x1ff], 0);
}

#[test]
fn machine_runs_and_waits_for_key() {
    let mut m = Machine::new();
    m.state.load_bytes(&[0x61, 0x05, 0xf2, 0x0a, 0x12, 0x04]);
    assert_eq!(m.cycle(), Effect::Continue);
    assert_eq!(m.state.reg[1], 5);
    assert_eq!(m.cycle(), Effect::WaitForKey(2));
    assert_eq!(m.mode, Mode::WaitingForKey(2));
    m.state.delay_timer = 2;
    m.tick_timers();
    assert_eq!(m.state.delay_timer, 1);
    assert_eq!(m.cycle(), Effect::Continue);
    assert_eq!(m.state.program_counter, 0x204);
    m.handle_event(DisplayEvent::KeyDown(9));
    assert_eq!(m.mode, Mode::Running);
    assert_eq!(m.state.reg[2], 9);
    assert!(m.state.keys[9]);
    m.handle_event(DisplayEvent::KeyUp(9));
    assert!(!m.state.keys[9]);
    m.cycle();
    assert_eq!(m.state.program_counter, 0x204);
    m.tick_timers();
    m.tick_timers();
    assert_eq!(m.state.delay_timer, 0);
}

#[test]
fn machine_halts_on_fault_and_quit() {
    let mut m = Machine::new();
    m.state.load_bytes(&[0x80, 0x08]);
    m.cycle();
    assert_eq!(m.mode, Mode::Halted(HaltReason::Fault(Fault::UnknownOpcode { word: 0x8008, pc: 0x200 })));
    assert!(m.is_halted());
    let mut m = Machine::new();
    assert!(m.is_running());
    m.handle_event(DisplayEvent::Quit);
    assert_eq!(m.mode, Mode::Halted(HaltReason::Quit));
    m.cycle();
    assert_eq!(m.state.program_counter, 0x200);
}
