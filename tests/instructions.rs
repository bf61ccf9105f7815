use chip8::decode::decode;
use chip8::execute::execute;
use chip8::state::State;

fn run(cpu: &mut State, word: u16) {
    let op = decode(cpu, word).unwrap();
    execute(cpu, op).unwrap();
}

#[test]
fn subroutines() {
    let mut cpu = State::new();
    assert_eq!(cpu.program_counter, 0x200);
    let x = decode(&cpu, 0x2fff).unwrap();
    execute(&mut cpu, x).unwrap();
    assert_eq!(0xfff, cpu.program_counter);
    let x = decode(&cpu, 0x00ee).unwrap();
    execute(&mut cpu, x).unwrap();
    assert_eq!(cpu.program_counter, 0x200);
}

#[test]
fn goto() {
    let mut cpu = State::new();
    assert_eq!(cpu.program_counter, 0x200);
    run(&mut cpu, 0x1fff);
    assert_eq!(0xfff, cpu.program_counter);
}

// A taken skip moves the program counter by one instruction width (two bytes).
#[test]
fn skip_next_op() {
    let mut cpu = State::new();
    let x = decode(&cpu, 0x30ff).unwrap();
    cpu.reg[0] = 0xff;
    assert_eq!(cpu.program_counter, 0x200);
    execute(&mut cpu, x).unwrap();
    assert_eq!(cpu.program_counter, 0x200 + 2);
    run(&mut cpu, 0x4000);
    assert_eq!(cpu.program_counter, 0x200 + 4);
    cpu.reg[1] = 0xff;
    run(&mut cpu, 0x5010);
    assert_eq!(cpu.program_counter, 0x200 + 6);
}

#[test]
fn set_reg() {
    let mut cpu = State::new();
    run(&mut cpu, 0x60ff);
    assert_eq!(cpu.reg[0], 0xff);
    cpu.reg[0] = 0;
    cpu.reg[1] = 1;
    run(&mut cpu, 0x8010);
    assert_eq!(cpu.reg[0], cpu.reg[1]);
}

#[test]
fn add_to_reg() {
    let mut cpu = State::new();
    cpu.reg[0] = 0;
    run(&mut cpu, 0x70ff);
    assert_eq!(cpu.reg[0], 0xff);

    cpu.reg[0] = 5;
    cpu.reg[1] = 10;
    run(&mut cpu, 0x8014);
    assert_eq!(cpu.reg[0], 15);
    let x = decode(&cpu, 0x8014).unwrap();
    cpu.reg[1] = 255;
    execute(&mut cpu, x).unwrap();
    assert_eq!(cpu.reg[15], 1);
}

#[test]
fn subtract_from_reg() {
    let mut cpu = State::new();
    cpu.reg[0] = 20;
    cpu.reg[1] = 5;
    run(&mut cpu, 0x8015);
    assert_eq!(cpu.reg[0], 15);
    cpu.reg[0] = 0;
    cpu.reg[1] = 5;
    run(&mut cpu, 0x8015);
    assert_eq!(cpu.reg[15], 1);

    cpu.reg[0] = 2;
    cpu.reg[1] = 3;
    run(&mut cpu, 0x8017);
    assert_eq!(cpu.reg[0], 1);

    cpu.reg[0] = 5;
    cpu.reg[1] = 0;
    run(&mut cpu, 0x8017);
    assert_eq!(cpu.reg[15], 1);
}

#[test]
fn set_reg_or_and_xor() {
    let mut cpu = State::new();
    cpu.reg[0] = 0xe;
    cpu.reg[1] = 0x4;
    run(&mut cpu, 0x8011);
    assert_eq!(cpu.reg[0], 0xe | 0x4);
    cpu.reg[0] = 0xe;
    cpu.reg[1] = 0x4;
    run(&mut cpu, 0x8012);
    assert_eq!(cpu.reg[0], 0xe & 0x4);
    cpu.reg[0] = 0xe;
    cpu.reg[1] = 0x4;
    run(&mut cpu, 0x8013);
    assert_eq!(cpu.reg[0], 0xe ^ 0x4);
}

#[test]
fn set_index_reg() {
    let mut cpu = State::new();
    cpu.index_reg = 0;
    run(&mut cpu, 0xa123);
    assert_eq!(cpu.index_reg, 0x123);
}

#[test]
fn jump_to_n_plus_v0() {
    let mut cpu = State::new();
    cpu.index_reg = 0;
    cpu.reg[0] = 0xff;
    run(&mut cpu, 0xb123);
    assert_eq!(cpu.program_counter, 0xff + 0x123);
}

#[test]
fn rand() {
    let mut cpu = State::new();
    cpu.reg[0] = 0;
    run(&mut cpu, 0xC00f);
    assert_eq!(cpu.reg[0], cpu.reg[0] & 0x0f);
}

#[test]
fn get_delay_timer() {
    let mut cpu = State::new();
    cpu.delay_timer = 100;
    cpu.reg[0] = 0;
    run(&mut cpu, 0xF007);
    assert_eq!(cpu.reg[0], cpu.delay_timer);
}

#[test]
fn set_timers() {
    let mut cpu = State::new();
    cpu.delay_timer = 0;
    cpu.reg[0] = 100;
    run(&mut cpu, 0xF015);
    assert_eq!(cpu.reg[0], cpu.delay_timer);

    let mut cpu = State::new();
    cpu.sound_timer = 0;
    cpu.reg[0] = 100;
    run(&mut cpu, 0xF018);
    assert_eq!(cpu.reg[0], cpu.sound_timer);
}

#[test]
fn add_to_index_reg() {
    let mut cpu = State::new();
    cpu.index_reg = 0;
    cpu.reg[0] = 5;
    run(&mut cpu, 0xF01E);
    assert_eq!(cpu.index_reg, cpu.reg[0] as u16);
}

#[test]
fn load_reg_to_and_from_memory() {
    let mut cpu = State::new();
    cpu.index_reg = 0x200;
    for i in 0x200..0x210 {
        cpu.memory[i] = 0xfe;
    }
    run(&mut cpu, 0xff65);
    for i in 0..cpu.reg.len() {
        assert_eq!(cpu.reg[i], 0xfe);
    }
    assert_eq!(cpu.index_reg, 0x200);
    cpu.index_reg = 0x300;
    run(&mut cpu, 0xff55);
    for i in 0x300..0x310 {
        assert_eq!(cpu.reg[0], cpu.memory[i as usize]);
    }
    assert_eq!(cpu.index_reg, 0x300);
}
