use chip8::colors::Colors;
use chip8::cpu::{Cpu, VmError, FONTSET};
use chip8::{CHIP8_MEMORY_SIZE, CHIP8_PROGRAM_START};

const NO_KEYS: [bool; 16] = [false; 16];

#[test]
fn fresh_machine_layout() {
    let cpu = Cpu::new();
    assert_eq!(cpu.program_counter.counter, CHIP8_PROGRAM_START);
    assert_eq!(cpu.sp, 0);
    assert_eq!(cpu.index, 0);
    assert_eq!(cpu.delay_timer, 0);
    assert_eq!(cpu.sound_timer, 0);
    assert!(!cpu.keypad_waiting);
    assert!(!cpu.graphics_changed);
    for i in 0..80 {
        assert_eq!(cpu.memory[i], FONTSET[i]);
    }
    for i in 80..CHIP8_MEMORY_SIZE {
        assert_eq!(cpu.memory[i], 0);
    }
    assert!(cpu.graphics.iter().all(|&c| c == 0));
    assert!(cpu.registers.iter().all(|&r| r == 0));
}

#[test]
fn load_places_program_at_start() {
    let mut cpu = Cpu::new();
    cpu.load(&[1, 2, 3]);
    assert_eq!(cpu.memory[0x200], 1);
    assert_eq!(cpu.memory[0x201], 2);
    assert_eq!(cpu.memory[0x202], 3);
    assert_eq!(cpu.memory[0x203], 0);
    // The font region is untouched.
    assert_eq!(cpu.memory[0], FONTSET[0]);
}

#[test]
fn load_truncates_silently_at_end_of_memory() {
    let mut cpu = Cpu::new();
    let image = vec![0xAB; 5000];
    cpu.load(&image);
    assert_eq!(cpu.memory[CHIP8_MEMORY_SIZE - 1], 0xAB);
    // Everything that fits was written, the rest was dropped, no error.
    assert!(cpu.memory[0x200..].iter().all(|&b| b == 0xAB));
}

#[test]
fn step_scenario_load_then_add() {
    // Load 5 into register 0; after one step the register holds 5 and the
    // cursor sits past the instruction. Add 10; after the next step the
    // register holds 15.
    let mut cpu = Cpu::new();
    cpu.load(&[0x60, 0x05, 0x70, 0x0A]);
    assert_eq!(cpu.mainloop(NO_KEYS), Ok(false));
    assert_eq!(cpu.registers[0], 5);
    assert_eq!(cpu.program_counter.counter, 0x202);
    assert_eq!(cpu.mainloop(NO_KEYS), Ok(false));
    assert_eq!(cpu.registers[0], 15);
    assert_eq!(cpu.program_counter.counter, 0x204);
}

#[test]
fn step_reports_framebuffer_change() {
    // A clear-screen step reports a change; a plain load does not.
    let mut cpu = Cpu::new();
    cpu.load(&[0x00, 0xE0, 0x61, 0x07]);
    assert_eq!(cpu.mainloop(NO_KEYS), Ok(true));
    assert_eq!(cpu.mainloop(NO_KEYS), Ok(false));
    assert_eq!(cpu.registers[1], 7);
}

#[test]
fn step_decrements_timers_once() {
    let mut cpu = Cpu::new();
    cpu.load(&[0x61, 0x07]);
    cpu.delay_timer = 3;
    cpu.sound_timer = 1;
    assert_eq!(cpu.mainloop(NO_KEYS), Ok(false));
    assert_eq!(cpu.delay_timer, 2);
    assert_eq!(cpu.sound_timer, 0);
    cpu.program_counter.counter = 0x200;
    assert_eq!(cpu.mainloop(NO_KEYS), Ok(false));
    assert_eq!(cpu.delay_timer, 1);
    assert_eq!(cpu.sound_timer, 0);
}

#[test]
fn step_on_unknown_word_continues() {
    let mut cpu = Cpu::new();
    cpu.load(&[0xE0, 0x00, 0x61, 0x07]);
    assert_eq!(cpu.mainloop(NO_KEYS), Ok(false));
    assert_eq!(cpu.program_counter.counter, 0x202);
    assert_eq!(cpu.mainloop(NO_KEYS), Ok(false));
    assert_eq!(cpu.registers[1], 7);
}

#[test]
fn step_at_end_of_memory_is_out_of_range() {
    let mut cpu = Cpu::new();
    cpu.program_counter.counter = CHIP8_MEMORY_SIZE - 1;
    assert_eq!(cpu.mainloop(NO_KEYS), Err(VmError::OutOfRange));
}

#[test]
fn step_surfaces_instruction_faults() {
    // A return with an empty stack faults the step.
    let mut cpu = Cpu::new();
    cpu.load(&[0x00, 0xEE]);
    assert_eq!(cpu.mainloop(NO_KEYS), Err(VmError::StackUnderflow));
}

#[test]
fn keypad_wait_parks_the_machine() {
    // F30A: wait for a key, targeting register 3.
    let mut cpu = Cpu::new();
    cpu.load(&[0xF3, 0x0A]);
    cpu.delay_timer = 5;
    assert_eq!(cpu.mainloop(NO_KEYS), Ok(false));
    assert!(cpu.keypad_waiting);
    assert_eq!(cpu.program_counter.counter, 0x202);
    assert_eq!(cpu.delay_timer, 4);
    // With no key pressed, steps change nothing: no timer decrement, no
    // register or cursor movement.
    for _ in 0..3 {
        assert_eq!(cpu.mainloop(NO_KEYS), Ok(false));
        assert!(cpu.keypad_waiting);
        assert_eq!(cpu.program_counter.counter, 0x202);
        assert_eq!(cpu.delay_timer, 4);
        assert!(cpu.registers.iter().all(|&r| r == 0));
    }
    // The lowest pressed key wins and lands in the target register.
    let mut keys = NO_KEYS;
    keys[9] = true;
    keys[6] = true;
    assert_eq!(cpu.mainloop(keys), Ok(false));
    assert!(!cpu.keypad_waiting);
    assert_eq!(cpu.registers[3], 6);
    assert_eq!(cpu.delay_timer, 4);
    assert_eq!(cpu.program_counter.counter, 0x202);
    // Normal stepping resumes on the next tick.
    cpu.memory[0x202] = 0x61;
    cpu.memory[0x203] = 0x07;
    assert_eq!(cpu.mainloop(NO_KEYS), Ok(false));
    assert_eq!(cpu.registers[1], 7);
    assert_eq!(cpu.delay_timer, 3);
}

#[test]
fn font_glyphs_draw_from_low_memory() {
    // Point the index register at glyph 0 and draw it: the glyph's top row
    // is 0xF0, four lit pixels.
    let mut cpu = Cpu::new();
    cpu.registers[0] = 0;
    cpu.op_fx29(0);
    assert_eq!(cpu.index, 0);
    assert_eq!(cpu.op_dxyn(1, 2, 5), Ok(()));
    assert_eq!(cpu.graphics[0], 1);
    assert_eq!(cpu.graphics[1], 1);
    assert_eq!(cpu.graphics[2], 1);
    assert_eq!(cpu.graphics[3], 1);
    assert_eq!(cpu.graphics[4], 0);
}

#[test]
fn palette_maps_cell_values() {
    assert_eq!(Colors::from_u8(0), Colors::Black);
    assert_eq!(Colors::from_u8(1), Colors::Green);
    assert_eq!(Colors::from_u8(200), Colors::Green);
}
