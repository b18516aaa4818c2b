use chip8::cpu::{Cpu, VmError};
use chip8::decode::{decode, Instr};
use chip8::CHIP8_FRAMEBUFFER_SIZE;

#[test]
fn add_registers_carry_set() {
    let mut cpu = Cpu::new();
    cpu.registers[0] = 200;
    cpu.registers[1] = 100;
    cpu.op_8xy4(0, 1);
    assert_eq!(cpu.registers[0], 44);
    assert_eq!(cpu.registers[15], 1);
    assert_eq!(cpu.program_counter.counter, 0x202);
}

#[test]
fn add_registers_no_carry() {
    let mut cpu = Cpu::new();
    cpu.registers[2] = 1;
    cpu.registers[3] = 2;
    cpu.op_8xy4(2, 3);
    assert_eq!(cpu.registers[2], 3);
    assert_eq!(cpu.registers[15], 0);
}

#[test]
fn add_registers_boundary() {
    // 255 + 0 stays in range; 255 + 1 wraps with carry.
    let mut cpu = Cpu::new();
    cpu.registers[0] = 255;
    cpu.registers[1] = 0;
    cpu.op_8xy4(0, 1);
    assert_eq!(cpu.registers[0], 255);
    assert_eq!(cpu.registers[15], 0);
    let mut cpu = Cpu::new();
    cpu.registers[0] = 255;
    cpu.registers[1] = 1;
    cpu.op_8xy4(0, 1);
    assert_eq!(cpu.registers[0], 0);
    assert_eq!(cpu.registers[15], 1);
}

#[test]
fn sub_registers_no_borrow_on_equal() {
    // The flag reads 1 when minuend >= subtrahend, equality included.
    let mut cpu = Cpu::new();
    cpu.registers[0] = 5;
    cpu.registers[1] = 5;
    cpu.op_8xy5(0, 1);
    assert_eq!(cpu.registers[0], 0);
    assert_eq!(cpu.registers[15], 1);
}

#[test]
fn sub_registers_borrow_wraps() {
    let mut cpu = Cpu::new();
    cpu.registers[0] = 4;
    cpu.registers[1] = 5;
    cpu.op_8xy5(0, 1);
    assert_eq!(cpu.registers[0], 255);
    assert_eq!(cpu.registers[15], 0);
}

#[test]
fn subn_registers_mirrored() {
    let mut cpu = Cpu::new();
    cpu.registers[0] = 3;
    cpu.registers[1] = 10;
    cpu.op_8xy7(0, 1);
    assert_eq!(cpu.registers[0], 7);
    assert_eq!(cpu.registers[15], 1);
}

#[test]
fn shifts_record_shifted_out_bit() {
    let mut cpu = Cpu::new();
    cpu.registers[4] = 0b1000_0101;
    cpu.op_8x06(4);
    assert_eq!(cpu.registers[4], 0b0100_0010);
    assert_eq!(cpu.registers[15], 1);
    cpu.registers[4] = 0b1000_0101;
    cpu.op_8x0e(4);
    assert_eq!(cpu.registers[4], 0b0000_1010);
    assert_eq!(cpu.registers[15], 1);
}

#[test]
fn bitwise_ops() {
    let mut cpu = Cpu::new();
    cpu.registers[0] = 0b1100;
    cpu.registers[1] = 0b1010;
    cpu.op_8xy1(0, 1);
    assert_eq!(cpu.registers[0], 0b1110);
    cpu.registers[0] = 0b1100;
    cpu.op_8xy2(0, 1);
    assert_eq!(cpu.registers[0], 0b1000);
    cpu.registers[0] = 0b1100;
    cpu.op_8xy3(0, 1);
    assert_eq!(cpu.registers[0], 0b0110);
}

#[test]
fn clear_screen_reports_change_even_when_blank() {
    let mut cpu = Cpu::new();
    // Already blank: the change is still reported.
    cpu.op_00e0();
    assert!(cpu.graphics_changed);
    assert!(cpu.graphics.iter().all(|&c| c == 0));
    // And with content it clears every cell.
    cpu.graphics_changed = false;
    cpu.graphics[77] = 1;
    cpu.op_00e0();
    assert!(cpu.graphics_changed);
    assert!(cpu.graphics.iter().all(|&c| c == 0));
}

#[test]
fn call_then_return_is_a_no_op_but_for_the_cursor() {
    let mut cpu = Cpu::new();
    cpu.registers[7] = 99;
    let regs_before = cpu.registers;
    let mem_before = cpu.memory;
    let gfx_before = cpu.graphics;
    assert_eq!(cpu.op_2nnn(0x400), Ok(()));
    assert_eq!(cpu.program_counter.counter, 0x400);
    assert_eq!(cpu.sp, 1);
    assert_eq!(cpu.op_00ee(), Ok(()));
    assert_eq!(cpu.program_counter.counter, 0x202);
    assert_eq!(cpu.sp, 0);
    assert_eq!(cpu.registers, regs_before);
    assert!(cpu.memory.iter().zip(mem_before.iter()).all(|(a, b)| a == b));
    assert!(cpu.graphics.iter().zip(gfx_before.iter()).all(|(a, b)| a == b));
}

#[test]
fn return_on_empty_stack_is_underflow() {
    let mut cpu = Cpu::new();
    assert_eq!(cpu.op_00ee(), Err(VmError::StackUnderflow));
    assert_eq!(cpu.program_counter.counter, 0x200);
}

#[test]
fn call_on_full_stack_is_overflow() {
    let mut cpu = Cpu::new();
    for _ in 0..16 {
        assert_eq!(cpu.op_2nnn(0x300), Ok(()));
        cpu.program_counter.counter = 0x300;
    }
    assert_eq!(cpu.sp, 16);
    assert_eq!(cpu.op_2nnn(0x300), Err(VmError::StackOverflow));
    assert_eq!(cpu.sp, 16);
}

#[test]
fn offset_jump_out_of_memory_is_out_of_range() {
    let mut cpu = Cpu::new();
    cpu.registers[0] = 255;
    assert_eq!(cpu.op_bnnn(0xFFF), Err(VmError::OutOfRange));
    assert_eq!(cpu.program_counter.counter, 0x200);
    cpu.registers[0] = 2;
    assert_eq!(cpu.op_bnnn(0x300), Ok(()));
    assert_eq!(cpu.program_counter.counter, 0x302);
}

#[test]
fn skip_family_moves_the_cursor() {
    let mut cpu = Cpu::new();
    cpu.registers[1] = 7;
    cpu.op_3xkk(1, 7);
    assert_eq!(cpu.program_counter.counter, 0x204);
    cpu.op_3xkk(1, 8);
    assert_eq!(cpu.program_counter.counter, 0x206);
    cpu.op_4xkk(1, 8);
    assert_eq!(cpu.program_counter.counter, 0x20A);
    cpu.registers[2] = 7;
    cpu.op_5xy0(1, 2);
    assert_eq!(cpu.program_counter.counter, 0x20E);
    cpu.op_9xy0(1, 2);
    assert_eq!(cpu.program_counter.counter, 0x210);
}

#[test]
fn bcd_digits_for_every_value() {
    for v in 0..=255u8 {
        let mut cpu = Cpu::new();
        cpu.index = 0x300;
        cpu.registers[3] = v;
        assert_eq!(cpu.op_fx33(3), Ok(()));
        assert_eq!(cpu.memory[0x300], v / 100);
        assert_eq!(cpu.memory[0x301], (v / 10) % 10);
        assert_eq!(cpu.memory[0x302], v % 10);
    }
}

#[test]
fn bcd_near_end_of_memory_is_out_of_range() {
    let mut cpu = Cpu::new();
    cpu.index = 4094;
    assert_eq!(cpu.op_fx33(0), Err(VmError::OutOfRange));
}

#[test]
fn dump_then_load_reproduces_registers() {
    let mut cpu = Cpu::new();
    for i in 0..16 {
        cpu.registers[i] = (10 + i) as u8;
    }
    cpu.index = 0x320;
    assert_eq!(cpu.op_fx55(9), Ok(()));
    let saved = cpu.registers;
    cpu.registers = [0; 16];
    assert_eq!(cpu.op_fx65(9), Ok(()));
    for i in 0..=9 {
        assert_eq!(cpu.registers[i], saved[i]);
    }
    for i in 10..16 {
        assert_eq!(cpu.registers[i], 0);
    }
}

#[test]
fn dump_near_end_of_memory_is_out_of_range() {
    let mut cpu = Cpu::new();
    cpu.index = 4090;
    assert_eq!(cpu.op_fx55(6), Err(VmError::OutOfRange));
    assert_eq!(cpu.op_fx65(6), Err(VmError::OutOfRange));
    assert_eq!(cpu.op_fx55(5), Ok(()));
}

#[test]
fn index_register_instructions() {
    let mut cpu = Cpu::new();
    cpu.op_annn(0x123);
    assert_eq!(cpu.index, 0x123);
    cpu.registers[2] = 9;
    cpu.op_fx29(2);
    assert_eq!(cpu.index, 45);
    cpu.index = 0x0F01;
    cpu.registers[0] = 10;
    assert_eq!(cpu.op_fx1e(0), Ok(()));
    assert_eq!(cpu.index, 0x0F0B);
    assert_eq!(cpu.registers[15], 1);
    cpu.index = 0x100;
    assert_eq!(cpu.op_fx1e(0), Ok(()));
    assert_eq!(cpu.registers[15], 0);
    cpu.index = 4090;
    cpu.registers[0] = 10;
    assert_eq!(cpu.op_fx1e(0), Err(VmError::OutOfRange));
    assert_eq!(cpu.index, 4090);
}

#[test]
fn timer_instructions() {
    let mut cpu = Cpu::new();
    cpu.registers[1] = 42;
    cpu.op_fx15(1);
    assert_eq!(cpu.delay_timer, 42);
    cpu.op_fx18(1);
    assert_eq!(cpu.sound_timer, 42);
    cpu.op_fx07(5);
    assert_eq!(cpu.registers[5], 42);
}

#[test]
fn random_masked_by_zero_is_zero() {
    let mut cpu = Cpu::new();
    cpu.registers[6] = 123;
    cpu.op_cxkk(6, 0);
    assert_eq!(cpu.registers[6], 0);
}

#[test]
fn random_with_injected_byte_is_exact() {
    let mut cpu = Cpu::new();
    cpu.op_cxkk_with(6, 0x0F, 0xAB);
    assert_eq!(cpu.registers[6], 0x0B);
}

#[test]
fn draw_twice_restores_and_collides() {
    let mut cpu = Cpu::new();
    cpu.index = 0x300;
    cpu.memory[0x300] = 0b1100_0001;
    cpu.memory[0x301] = 0b0000_1000;
    cpu.registers[0] = 60; // wraps over the right edge
    cpu.registers[1] = 31; // wraps over the bottom edge
    let before = cpu.graphics;
    assert_eq!(cpu.op_dxyn(0, 1, 2), Ok(()));
    // First draw over a clear region: no collision, pixels set.
    assert_eq!(cpu.registers[15], 0);
    assert_eq!(cpu.graphics[31 * 64 + 60], 1);
    assert_eq!(cpu.graphics[31 * 64 + 61], 1);
    assert_eq!(cpu.graphics[31 * 64 + (60 + 7) % 64], 1);
    assert_eq!(cpu.graphics[0 * 64 + 64 % 64], 1);
    assert!(cpu.graphics_changed);
    assert_eq!(cpu.program_counter.counter, 0x202);
    // Second identical draw: collision, and the framebuffer is restored.
    assert_eq!(cpu.op_dxyn(0, 1, 2), Ok(()));
    assert_eq!(cpu.registers[15], 1);
    assert!(cpu.graphics.iter().zip(before.iter()).all(|(a, b)| a == b));
}

#[test]
fn draw_outside_memory_is_out_of_range() {
    let mut cpu = Cpu::new();
    cpu.index = 4090;
    assert_eq!(cpu.op_dxyn(0, 1, 7), Err(VmError::OutOfRange));
    assert_eq!(cpu.op_dxyn(0, 1, 6), Ok(()));
}

#[test]
fn key_skip_instructions() {
    let mut cpu = Cpu::new();
    cpu.registers[0] = 4;
    cpu.keys[4] = true;
    assert_eq!(cpu.op_ex9e(0), Ok(()));
    assert_eq!(cpu.program_counter.counter, 0x204);
    assert_eq!(cpu.op_exa1(0), Ok(()));
    assert_eq!(cpu.program_counter.counter, 0x206);
    cpu.registers[0] = 200;
    assert_eq!(cpu.op_ex9e(0), Err(VmError::OutOfRange));
}

#[test]
fn framebuffer_size_matches_grid() {
    assert_eq!(CHIP8_FRAMEBUFFER_SIZE, 64 * 32);
    let cpu = Cpu::new();
    assert_eq!(cpu.graphics.len(), CHIP8_FRAMEBUFFER_SIZE);
}

#[test]
fn decoder_maps_words_to_variants() {
    assert_eq!(decode(0x00E0), Instr::Cls);
    assert_eq!(decode(0x00EE), Instr::Ret);
    assert_eq!(decode(0x1234), Instr::Jp { nnn: 0x234 });
    assert_eq!(decode(0x2ABC), Instr::Call { nnn: 0xABC });
    assert_eq!(decode(0x3A12), Instr::SeByte { x: 0xA, kk: 0x12 });
    assert_eq!(decode(0x6105), Instr::LdByte { x: 1, kk: 5 });
    assert_eq!(decode(0x710A), Instr::AddByte { x: 1, kk: 0x0A });
    assert_eq!(decode(0x8AB4), Instr::AddReg { x: 0xA, y: 0xB });
    assert_eq!(decode(0xD123), Instr::Drw { x: 1, y: 2, n: 3 });
    assert_eq!(decode(0xE09E), Instr::Skp { x: 0 });
    assert_eq!(decode(0xF10A), Instr::WaitKey { x: 1 });
    assert_eq!(decode(0xF365), Instr::LoadRegs { x: 3 });
    // Words that match no known form decode to Unknown.
    assert_eq!(decode(0x5121), Instr::Unknown { op: 0x5121 });
    assert_eq!(decode(0xE000), Instr::Unknown { op: 0xE000 });
    assert_eq!(decode(0xFFFF), Instr::Unknown { op: 0xFFFF });
}
