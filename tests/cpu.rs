use gaby::cpu::{CpuError, CpuMode, CPU};
use gaby::memory::{IORegister, Memory};
use gaby::registers::{ByteRegister, Registers, WordRegister};

fn zeroed() -> Memory {
    Memory::from_bytes(vec![0u8; 0x10000])
}

/// A fresh CPU and zeroed memory holding `program` at 0x0100.
fn setup(program: &[u8]) -> (CPU, Memory) {
    let mut mem = zeroed();
    for (i, b) in program.iter().enumerate() {
        mem.set(0x0100 + i as u16, *b);
    }
    (CPU::new(), mem)
}

fn run(cpu: &mut CPU, mem: &mut Memory) -> u32 {
    cpu.cycles_until_done = 0;
    cpu.execute(mem).unwrap();
    cpu.cycles_until_done
}

#[test]
fn boot_state() {
    let mem = Memory::new();
    assert_eq!(mem.read_byte(IORegister::LCDC), 0x91);
    assert_eq!(mem.read_byte(IORegister::BGP), 0xFC);
    assert_eq!(mem.read_byte(IORegister::NR52), 0xF1);
    assert_eq!(mem.data.len(), 0x10000);
    let cpu = CPU::new();
    assert_eq!(cpu.reg.sp, 0xFFFE);
    assert_eq!(cpu.reg.pc, 0x0100);
    assert_eq!(cpu.reg.a, 0x01);
    assert_eq!(cpu.reg.f, 0xB0);
    assert_eq!(cpu.reg.bc(), 0x0013);
    assert_eq!(cpu.reg.de(), 0x00D8);
    assert_eq!(cpu.reg.hl(), 0x014D);
    assert!(!cpu.ime);
}

#[test]
fn xor_a_clears_carry_and_sets_z() {
    let (mut cpu, mut mem) = setup(&[0xAF]);
    assert_eq!(run(&mut cpu, &mut mem), 1);
    assert_eq!(cpu.reg.a, 0);
    assert_eq!(cpu.reg.f, 0x80);
}

#[test]
fn relative_jump_taken() {
    let (mut cpu, mut mem) = setup(&[0x28, 0x05]);
    cpu.reg.f = 0x80;
    assert_eq!(run(&mut cpu, &mut mem), 3);
    assert_eq!(cpu.reg.pc, 0x0107);
}

#[test]
fn relative_jump_backwards_and_not_taken() {
    let (mut cpu, mut mem) = setup(&[0x18, 0xFE]);
    assert_eq!(run(&mut cpu, &mut mem), 3);
    assert_eq!(cpu.reg.pc, 0x0100);
    let (mut cpu, mut mem) = setup(&[0x20, 0x05]);
    cpu.reg.f = 0x80;
    assert_eq!(run(&mut cpu, &mut mem), 2);
    assert_eq!(cpu.reg.pc, 0x0102);
}

#[test]
fn conditional_call_not_taken() {
    let (mut cpu, mut mem) = setup(&[0xCC, 0x34, 0x12]);
    cpu.reg.f = 0x00;
    assert_eq!(run(&mut cpu, &mut mem), 3);
    assert_eq!(cpu.reg.pc, 0x0103);
    assert_eq!(cpu.reg.sp, 0xFFFE);
}

#[test]
fn call_and_return() {
    let (mut cpu, mut mem) = setup(&[0xCD, 0x34, 0x12]);
    mem.set(0x1234, 0xC9);
    assert_eq!(run(&mut cpu, &mut mem), 6);
    assert_eq!(cpu.reg.pc, 0x1234);
    assert_eq!(cpu.reg.sp, 0xFFFC);
    assert_eq!(mem.read_word(0xFFFC), 0x0103);
    assert_eq!(run(&mut cpu, &mut mem), 4);
    assert_eq!(cpu.reg.pc, 0x0103);
    assert_eq!(cpu.reg.sp, 0xFFFE);
}

#[test]
fn ldh_write_read_round_trip() {
    let (mut cpu, mut mem) = setup(&[0xE0, 0x80, 0xAF, 0xF0, 0x80]);
    cpu.reg.a = 0x42;
    assert_eq!(run(&mut cpu, &mut mem), 3);
    assert_eq!(mem.read_byte(0xFF80), 0x42);
    run(&mut cpu, &mut mem);
    assert_eq!(cpu.reg.a, 0);
    assert_eq!(run(&mut cpu, &mut mem), 3);
    assert_eq!(cpu.reg.a, 0x42);
    assert_eq!(mem.read_byte(0xFF80), 0x42);
}

#[test]
fn cycle_table() {
    let cases: [(&[u8], u8, u32); 16] = [
        (&[0x00], 0x00, 1),
        (&[0x41], 0x00, 1),
        (&[0x46], 0x00, 2),
        (&[0xC3, 0x00, 0x20], 0x00, 4),
        (&[0xC2, 0x00, 0x20], 0x00, 4),
        (&[0xC2, 0x00, 0x20], 0x80, 3),
        (&[0xCD, 0x00, 0x20], 0x00, 6),
        (&[0xC9], 0x00, 4),
        (&[0xD9], 0x00, 4),
        (&[0xC5], 0x00, 4),
        (&[0xC1], 0x00, 3),
        (&[0x86], 0x00, 2),
        (&[0xCB, 0x40], 0x00, 2),
        (&[0xCB, 0x46], 0x00, 3),
        (&[0xCB, 0xC6], 0x00, 4),
        (&[0xE9], 0x00, 1),
    ];
    for (program, f, cycles) in cases.iter() {
        let (mut cpu, mut mem) = setup(program);
        cpu.reg.f = *f;
        cpu.reg.set_hl(0xC000);
        assert_eq!(run(&mut cpu, &mut mem), *cycles, "program {:02X?}", program);
    }
    let (mut cpu, mut mem) = setup(&[0xF9]);
    assert_eq!(run(&mut cpu, &mut mem), 2);
    assert_eq!(cpu.reg.sp, 0x014D);
}

#[test]
fn unimplemented_opcode_is_an_error() {
    let (mut cpu, mut mem) = setup(&[0xD3]);
    assert_eq!(cpu.execute(&mut mem), Err(CpuError::UnimplementedOpcode(0xD3)));
    assert_eq!(cpu.reg.pc, 0x0101);
    let (mut cpu, mut mem) = setup(&[0x10]);
    assert_eq!(cpu.tick(&mut mem), Err(CpuError::UnimplementedOpcode(0x10)));
}

#[test]
fn add_sets_half_carry_and_carry() {
    let (mut cpu, mut mem) = setup(&[0xC6, 0x01, 0xC6, 0xF0]);
    cpu.reg.a = 0x0F;
    run(&mut cpu, &mut mem);
    assert_eq!(cpu.reg.a, 0x10);
    assert_eq!(cpu.reg.f, 0x20);
    run(&mut cpu, &mut mem);
    assert_eq!(cpu.reg.a, 0x00);
    assert_eq!(cpu.reg.f, 0x90);
}

#[test]
fn sub_and_compare_flags() {
    let (mut cpu, mut mem) = setup(&[0xD6, 0x01, 0xFE, 0x20, 0xDE, 0x00]);
    cpu.reg.a = 0x10;
    run(&mut cpu, &mut mem);
    assert_eq!(cpu.reg.a, 0x0F);
    assert_eq!(cpu.reg.f, 0x60);
    run(&mut cpu, &mut mem);
    assert_eq!(cpu.reg.a, 0x0F);
    assert_eq!(cpu.reg.f, 0x50);
    run(&mut cpu, &mut mem);
    assert_eq!(cpu.reg.a, 0x0E);
    assert_eq!(cpu.reg.f, 0x40);
}

#[test]
fn and_sets_half_carry() {
    let (mut cpu, mut mem) = setup(&[0xE6, 0x0F]);
    cpu.reg.a = 0xF0;
    run(&mut cpu, &mut mem);
    assert_eq!(cpu.reg.a, 0x00);
    assert_eq!(cpu.reg.f, 0xA0);
}

#[test]
fn swap_exchanges_nibbles() {
    let (mut cpu, mut mem) = setup(&[0xCB, 0x37]);
    cpu.reg.a = 0x12;
    assert_eq!(run(&mut cpu, &mut mem), 2);
    assert_eq!(cpu.reg.a, 0x21);
    assert_eq!(cpu.reg.f, 0x00);
}

#[test]
fn rotates_and_shifts() {
    let (mut cpu, mut mem) = setup(&[0x07, 0xCB, 0x00, 0xCB, 0x38, 0xCB, 0x28]);
    cpu.reg.a = 0x80;
    cpu.reg.b = 0x00;
    run(&mut cpu, &mut mem);
    assert_eq!(cpu.reg.a, 0x01);
    assert_eq!(cpu.reg.f, 0x10);
    run(&mut cpu, &mut mem);
    assert_eq!(cpu.reg.b, 0x00);
    assert_eq!(cpu.reg.f, 0x80);
    cpu.reg.b = 0x81;
    run(&mut cpu, &mut mem);
    assert_eq!(cpu.reg.b, 0x40);
    assert_eq!(cpu.reg.f, 0x10);
    cpu.reg.b = 0x81;
    run(&mut cpu, &mut mem);
    assert_eq!(cpu.reg.b, 0xC0);
    assert_eq!(cpu.reg.f, 0x10);
}

#[test]
fn increment_and_decrement() {
    let (mut cpu, mut mem) = setup(&[0x3C, 0x05, 0x03, 0x34]);
    cpu.reg.a = 0x0F;
    cpu.reg.f = 0x10;
    run(&mut cpu, &mut mem);
    assert_eq!(cpu.reg.a, 0x10);
    assert_eq!(cpu.reg.f, 0x30);
    cpu.reg.b = 0x01;
    run(&mut cpu, &mut mem);
    assert_eq!(cpu.reg.b, 0x00);
    assert_eq!(cpu.reg.f, 0xD0);
    cpu.reg.set_bc(0xFFFF);
    assert_eq!(run(&mut cpu, &mut mem), 2);
    assert_eq!(cpu.reg.bc(), 0x0000);
    cpu.reg.set_hl(0xC010);
    mem.write_byte(0xC010, 0xFF);
    assert_eq!(run(&mut cpu, &mut mem), 3);
    assert_eq!(mem.read_byte(0xC010), 0x00);
    assert_eq!(mem.read_byte(0xE010), 0x00);
}

#[test]
fn add_hl_sets_half_carry_from_bit_11() {
    let (mut cpu, mut mem) = setup(&[0x09]);
    cpu.reg.set_hl(0x0FFF);
    cpu.reg.set_bc(0x0001);
    cpu.reg.f = 0x80;
    assert_eq!(run(&mut cpu, &mut mem), 2);
    assert_eq!(cpu.reg.hl(), 0x1000);
    assert_eq!(cpu.reg.f, 0xA0);
}

#[test]
fn push_pop_af_masks_low_flag_bits() {
    let (mut cpu, mut mem) = setup(&[0xC5, 0xF1]);
    cpu.reg.set_bc(0x12FF);
    run(&mut cpu, &mut mem);
    run(&mut cpu, &mut mem);
    assert_eq!(cpu.reg.a, 0x12);
    assert_eq!(cpu.reg.f, 0xF0);
    assert_eq!(cpu.reg.word_register(&WordRegister::AF), 0x12F0);
}

#[test]
fn load_and_increment_hl() {
    let (mut cpu, mut mem) = setup(&[0x22, 0x3A]);
    cpu.reg.set_hl(0xC000);
    cpu.reg.a = 0x5A;
    assert_eq!(run(&mut cpu, &mut mem), 2);
    assert_eq!(mem.read_byte(0xC000), 0x5A);
    assert_eq!(cpu.reg.hl(), 0xC001);
    cpu.reg.a = 0;
    run(&mut cpu, &mut mem);
    assert_eq!(cpu.reg.hl(), 0xC000);
    assert_eq!(cpu.reg.a, 0x00);
}

#[test]
fn halt_and_wake() {
    let (mut cpu, mut mem) = setup(&[0x76]);
    cpu.tick(&mut mem).unwrap();
    assert_eq!(cpu.mode, CpuMode::Halt);
    mem.set(IORegister::IE, 0x04);
    mem.set(IORegister::IF, 0x04);
    cpu.tick(&mut mem).unwrap();
    assert_eq!(cpu.mode, CpuMode::Run);
    // Woken with IME clear, the CPU goes on with the NOP after HALT.
    assert_eq!(cpu.reg.pc, 0x0102);
}

#[test]
fn interrupt_dispatch_order() {
    let (mut cpu, mut mem) = setup(&[]);
    mem.set(IORegister::IF, 0x1F);
    mem.set(IORegister::IE, 0x1F);
    let vectors = [0x40u16, 0x48, 0x50, 0x58, 0x60];
    let remaining = [0x1Eu8, 0x1C, 0x18, 0x10, 0x00];
    for k in 0..5 {
        cpu.ime = true;
        cpu.cycles_until_done = 0;
        cpu.dispatch_interrupts(&mut mem);
        assert_eq!(cpu.reg.pc, vectors[k]);
        assert!(!cpu.ime);
        assert_eq!(cpu.cycles_until_done, 5);
        assert_eq!(mem.get(IORegister::IF), remaining[k]);
    }
    assert_eq!(cpu.reg.sp, 0xFFFE - 10);
}

#[test]
fn registers_pairs() {
    let mut reg = Registers::new();
    reg.set_de(0xBEEF);
    assert_eq!(reg.d, 0xBE);
    assert_eq!(reg.e, 0xEF);
    assert_eq!(reg.de(), 0xBEEF);
    reg.set_byte_register(&ByteRegister::H, 0x77);
    assert_eq!(reg.byte_register(&ByteRegister::H), 0x77);
    reg.set_flags(0xFF);
    assert_eq!(reg.flags(), 0xF0);
    assert!(reg.z_flag() && reg.n_flag() && reg.h_flag() && reg.c_flag());
}

#[test]
fn push_pop_restores_pair() {
    let (mut cpu, mut mem) = setup(&[0xD5, 0x11, 0x00, 0x00, 0xD1]);
    cpu.reg.set_de(0xBEEF);
    assert_eq!(run(&mut cpu, &mut mem), 4);
    assert_eq!(cpu.reg.sp, 0xFFFC);
    run(&mut cpu, &mut mem);
    assert_eq!(cpu.reg.de(), 0x0000);
    assert_eq!(run(&mut cpu, &mut mem), 3);
    assert_eq!(cpu.reg.de(), 0xBEEF);
    assert_eq!(cpu.reg.sp, 0xFFFE);
}
