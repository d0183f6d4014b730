use chip8::cpu::Cpu;
use chip8::fault::Fault;
use chip8::instruction::Instruction;
use chip8::keypad::Key;
use chip8::model::StepReport;
use chip8::display::COLOR_ON;

const MS: u64 = 1_000_000;

#[test]
fn delay_timer_decays_sixty_times_a_second() {
    let mut cpu = Cpu::new(0);
    cpu.set_delay(10, 1000 * MS);
    assert_eq!(cpu.get_delay(1000 * MS), 10);
    assert_eq!(cpu.get_delay(1000 * MS + MS - 1), 10);
    assert_eq!(cpu.get_delay(1015 * MS), 10);
    assert_eq!(cpu.get_delay(1016 * MS - 1), 10);
    assert_eq!(cpu.get_delay(1016 * MS), 9);
    assert_eq!(cpu.get_delay(1032 * MS), 8);
    assert_eq!(cpu.get_delay(1000 * MS + 159 * MS), 1);
    assert_eq!(cpu.get_delay(1000 * MS + 160 * MS), 0);
    assert_eq!(cpu.get_delay(1000 * MS + 100_000 * MS), 0);
    assert_eq!(cpu.get_delay(u64::MAX), 0);
}

#[test]
fn delay_timer_set_then_read_for_every_value() {
    for value in 0..=255u8 {
        let mut cpu = Cpu::new(7);
        cpu.set_delay(value, 500);
        assert_eq!(cpu.get_delay(500), value);
        assert_eq!(cpu.get_delay(500 + value as u64 * 16 * MS), 0);
        if value > 0 {
            assert_eq!(cpu.get_delay(500 + value as u64 * 16 * MS - 1), 1);
        }
    }
}

#[test]
fn delay_timer_read_before_it_was_set_gives_the_value() {
    let mut cpu = Cpu::new(0);
    cpu.set_delay(5, 1000 * MS);
    assert_eq!(cpu.get_delay(0), 5);
}

#[test]
fn delay_timer_instructions() {
    let mut cpu = Cpu::new(0);
    cpu.interpret(0x6128, 0).unwrap();
    cpu.interpret(0xF115, 100 * MS).unwrap();
    cpu.interpret(0xF207, 100 * MS).unwrap();
    assert_eq!(cpu.registers()[2], 0x28);
    cpu.interpret(0xF207, 100 * MS + 33 * MS).unwrap();
    assert_eq!(cpu.registers()[2], 0x26);
    cpu.interpret(0xF207, 100 * MS + 0x28 * 16 * MS).unwrap();
    assert_eq!(cpu.registers()[2], 0);
}

#[test]
fn three_steps_of_a_small_program() {
    let mut cpu = Cpu::new(0);
    cpu.load_rom(&[0x60, 0x0A, 0x70, 0x05, 0x12, 0x00]).unwrap();
    let first = cpu.step(&[], 3 * MS).unwrap();
    assert_eq!(first.executed, Some(Instruction::Load { x: 0, byte: 0x0A }));
    assert_eq!(cpu.registers()[0], 0x0A);
    let second = cpu.step(&[], 6 * MS).unwrap();
    assert_eq!(second.executed, Some(Instruction::AddByte { x: 0, byte: 0x05 }));
    assert_eq!(cpu.registers()[0], 0x0F);
    assert_eq!(cpu.program_counter(), 0x204);
    let third = cpu.step(&[], 9 * MS).unwrap();
    assert_eq!(third.executed, Some(Instruction::Jump { addr: 0x200 }));
    assert_eq!(cpu.program_counter(), 0x200);
    let mut now = 9 * MS;
    for round in 0..300u32 {
        now += 3 * MS;
        assert!(cpu.step(&[], now).is_ok());
        if round % 3 == 2 {
            assert_eq!(cpu.program_counter(), 0x200);
        }
    }
    assert_eq!(cpu.registers()[0], 0x0F);
}

#[test]
fn instruction_runs_only_after_more_than_two_milliseconds() {
    let mut cpu = Cpu::new(10 * MS);
    cpu.load_rom(&[0x60, 0x01, 0x61, 0x02]).unwrap();
    assert_eq!(cpu.step(&[], 10 * MS), Ok(StepReport { executed: None, rendered: false }));
    assert_eq!(cpu.step(&[], 12 * MS), Ok(StepReport { executed: None, rendered: false }));
    assert_eq!(cpu.program_counter(), 0x200);
    let report = cpu.step(&[], 12 * MS + 1).unwrap();
    assert_eq!(report.executed, Some(Instruction::Load { x: 0, byte: 1 }));
    assert_eq!(cpu.step(&[], 14 * MS + 1).unwrap().executed, None);
    assert_eq!(
        cpu.step(&[], 14 * MS + 2).unwrap().executed,
        Some(Instruction::Load { x: 1, byte: 2 })
    );
}

#[test]
fn step_with_a_clock_that_runs_backwards_does_nothing() {
    let mut cpu = Cpu::new(1000 * MS);
    cpu.load_rom(&[0x60, 0x01]).unwrap();
    assert_eq!(cpu.step(&[], 0), Ok(StepReport { executed: None, rendered: false }));
    assert_eq!(cpu.program_counter(), 0x200);
}

#[test]
fn frame_renders_only_after_more_than_ten_milliseconds() {
    let mut cpu = Cpu::new(0);
    cpu.load_rom(&[0xA0, 0x00, 0xD0, 0x05, 0x12, 0x04]).unwrap();
    assert!(!cpu.step(&[], 3 * MS).unwrap().rendered);
    assert!(!cpu.step(&[], 6 * MS).unwrap().rendered);
    assert!(cpu.display().get_point(0, 0));
    assert_eq!(cpu.display().buffer()[0], 0);
    assert!(!cpu.step(&[], 10 * MS).unwrap().rendered);
    let report = cpu.step(&[], 10 * MS + 1).unwrap();
    assert!(report.rendered);
    assert_eq!(cpu.display().buffer()[0], COLOR_ON);
    assert_eq!(cpu.display().buffer()[4], 0);
    assert!(!cpu.step(&[], 20 * MS + 1).unwrap().rendered);
    assert!(cpu.step(&[], 20 * MS + 2).unwrap().rendered);
}

#[test]
fn key_latch_takes_a_pressed_key_at_once() {
    let mut cpu = Cpu::new(0);
    cpu.step(&[Key::W], 1).unwrap();
    assert_eq!(cpu.latched_key(), Some(0x5));
    cpu.step(&[Key::V, Key::W], 2).unwrap();
    assert_eq!(cpu.latched_key(), Some(0xF));
}

#[test]
fn key_latch_holds_a_key_for_two_hundred_milliseconds() {
    let mut cpu = Cpu::new(0);
    cpu.step(&[Key::A], 50 * MS).unwrap();
    assert_eq!(cpu.latched_key(), Some(0x7));
    cpu.step(&[], 100 * MS).unwrap();
    assert_eq!(cpu.latched_key(), Some(0x7));
    cpu.step(&[], 250 * MS - 1).unwrap();
    assert_eq!(cpu.latched_key(), Some(0x7));
    cpu.step(&[], 250 * MS).unwrap();
    assert_eq!(cpu.latched_key(), None);
}

#[test]
fn key_latch_considers_only_the_first_key() {
    let mut cpu = Cpu::new(0);
    cpu.step(&[Key::X], 1).unwrap();
    assert_eq!(cpu.latched_key(), Some(0x0));
    cpu.step(&[Key::Other, Key::Q], 2).unwrap();
    assert_eq!(cpu.latched_key(), Some(0x0));
    cpu.step(&[Key::Other, Key::Q], 201 * MS).unwrap();
    assert_eq!(cpu.latched_key(), None);
}

#[test]
fn blocking_key_read_waits_for_a_key() {
    let mut cpu = Cpu::new(0);
    cpu.load_rom(&[0xF3, 0x0A, 0x61, 0x77]).unwrap();
    let mut now = 0;
    for _ in 0..50 {
        now += 5 * MS;
        let report = cpu.step(&[], now).unwrap();
        assert_eq!(report.executed, Some(Instruction::WaitKey { x: 3 }));
        assert_eq!(cpu.program_counter(), 0x200);
        assert_eq!(cpu.registers()[3], 0);
    }
    now += 5 * MS;
    cpu.step(&[Key::Other], now).unwrap();
    assert_eq!(cpu.program_counter(), 0x200);
    now += 5 * MS;
    let report = cpu.step(&[Key::C], now).unwrap();
    assert_eq!(report.executed, Some(Instruction::WaitKey { x: 3 }));
    assert_eq!(cpu.registers()[3], 0xB);
    assert_eq!(cpu.program_counter(), 0x202);
    now += 5 * MS;
    cpu.step(&[], now).unwrap();
    assert_eq!(cpu.registers()[1], 0x77);
    assert_eq!(cpu.program_counter(), 0x204);
}

#[test]
fn key_skips_follow_the_latch() {
    let mut cpu = Cpu::new(0);
    cpu.interpret(0x6105, 0).unwrap();
    cpu.interpret(0xE19E, 0).unwrap();
    assert_eq!(cpu.program_counter(), 0x204);
    cpu.interpret(0xE1A1, 0).unwrap();
    assert_eq!(cpu.program_counter(), 0x208);
    cpu.step(&[Key::W], 1).unwrap();
    cpu.interpret(0xE19E, 1).unwrap();
    assert_eq!(cpu.program_counter(), 0x20C);
    cpu.interpret(0xE1A1, 1).unwrap();
    assert_eq!(cpu.program_counter(), 0x20E);
    cpu.step(&[Key::Q], 1).unwrap();
    cpu.interpret(0xE19E, 1).unwrap();
    assert_eq!(cpu.program_counter(), 0x210);
    cpu.interpret(0xE1A1, 1).unwrap();
    assert_eq!(cpu.program_counter(), 0x214);
}

#[test]
fn step_reports_a_fault_and_keeps_the_latch() {
    let mut cpu = Cpu::new(0);
    cpu.load_rom(&[0x00, 0xEE]).unwrap();
    assert_eq!(cpu.step(&[Key::R], 3 * MS), Err(Fault::StackUnderflow));
    assert_eq!(cpu.latched_key(), Some(0xD));
    assert_eq!(cpu.program_counter(), 0x200);
    assert_eq!(cpu.step(&[], 20 * MS), Err(Fault::StackUnderflow));
}

#[test]
fn step_off_the_end_of_memory_is_a_fault() {
    let mut cpu = Cpu::new(0);
    cpu.load_rom(&[0x1F, 0xFF]).unwrap();
    assert_eq!(cpu.step(&[], 3 * MS).unwrap().executed, Some(Instruction::Jump { addr: 0xFFF }));
    assert_eq!(cpu.step(&[], 6 * MS), Err(Fault::OutOfBounds));
    assert_eq!(cpu.program_counter(), 0xFFF);
}

#[test]
fn step_reports_an_unrecognized_word_and_goes_on() {
    let mut cpu = Cpu::new(0);
    cpu.load_rom(&[0xFF, 0xFF, 0x60, 0x09]).unwrap();
    let report = cpu.step(&[], 3 * MS).unwrap();
    assert_eq!(report.executed, Some(Instruction::Unrecognized { opcode: 0xFFFF }));
    assert_eq!(cpu.program_counter(), 0x202);
    cpu.step(&[], 6 * MS).unwrap();
    assert_eq!(cpu.registers()[0], 9);
}

#[test]
fn run_loop_goes_on_while_window_is_open_and_quit_key_is_up() {
    let cpu = Cpu::new(0);
    assert!(cpu.is_running(true, false));
    assert!(!cpu.is_running(true, true));
    assert!(!cpu.is_running(false, false));
    assert!(!cpu.is_running(false, true));
}
