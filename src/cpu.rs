use vstd::prelude::*;
use crate::memory::{
    IORegister, MEMORY_SIZE, Memory, MemView, read_spec, read_word_spec, write_spec, mark_spec, next_address,
};
use crate::instructions::{
    Condition, alu_effect, jump_effect, jump_relative_effect, load_effect, step_byte_effect,
    step_word_effect, load_step_hl_effect, push_effect, pop_effect, call_effect, restart_effect,
    return_effect, complement_effect, shift_effect, test_bit_effect, write_bit_effect, add_word_effect,
};
use crate::operands::{Immediate, Indirect, IndirectHighImmediate, IndirectImmediate, Source, Target};
use crate::registers::{ByteRegister, Registers, WordRegister, flags_byte, make_flags};

verus! {

/// `c + n` wrapped to 32 bits.
pub open spec fn add_cycles(c: u32, n: u32) -> u32 {
    if c + n > u32::MAX {
        (c + n - 0x1_0000_0000) as u32
    } else {
        (c + n) as u32
    }
}

/// `x` wrapped to 16 bits, for `x` within one wrap of the range.
pub open spec fn wrap16(x: int) -> u16 {
    if x < 0 {
        (x + 0x10000) as u16
    } else if x >= 0x10000 {
        (x - 0x10000) as u16
    } else {
        x as u16
    }
}

/// `x` wrapped to 8 bits, for `x` within one wrap of the range.
pub open spec fn wrap8(x: int) -> u8 {
    if x < 0 {
        (x + 0x100) as u8
    } else if x >= 0x100 {
        (x - 0x100) as u8
    } else {
        x as u8
    }
}

/// The bus after a byte write at `a`.
pub open spec fn mem_write(m: MemView, a: u16, v: u8) -> MemView {
    MemView { bytes: write_spec(m.bytes, a, v), written: mark_spec(m.written, a) }
}

/// The bus after a little-endian word write at `a`.
pub open spec fn mem_write_word(m: MemView, a: u16, v: u16) -> MemView {
    mem_write(mem_write(m, a, (v % 256) as u8), next_address(a), (v / 256) as u8)
}

/// Whether the CPU executes instructions or waits for an interrupt.
#[derive(Clone, Copy, Debug, PartialEq, Eq, Structural)]
pub enum CpuMode {
    Halt,
    Run,
}

/// The error that stops execution.
#[derive(Clone, Copy, Debug, PartialEq, Eq, Structural)]
pub enum CpuError {
    /// The fetched opcode has no instruction.
    UnimplementedOpcode(u8),
}

/// The CPU: registers, interrupt master enable, run mode and the number of
/// machine cycles left before the current instruction is done.
#[derive(Clone, Copy, Debug, PartialEq, Eq, Structural)]
pub struct CPU {
    pub reg: Registers,
    pub ime: bool,
    pub mode: CpuMode,
    pub cycles_until_done: u32,
}

impl CPU {
    /// This state with `n` more machine cycles charged.
    pub open spec fn charged(self, n: u32) -> CPU {
        CPU { cycles_until_done: add_cycles(self.cycles_until_done, n), ..self }
    }

    pub open spec fn with_reg(self, reg: Registers) -> CPU {
        CPU { reg, ..self }
    }

    pub open spec fn with_flags(self, f: u8) -> CPU {
        CPU { reg: Registers { f, ..self.reg }, ..self }
    }

    pub open spec fn with_pc(self, pc: u16) -> CPU {
        CPU { reg: Registers { pc, ..self.reg }, ..self }
    }

    pub open spec fn with_sp(self, sp: u16) -> CPU {
        CPU { reg: Registers { sp, ..self.reg }, ..self }
    }

    pub open spec fn with_a(self, a: u8) -> CPU {
        CPU { reg: Registers { a, ..self.reg }, ..self }
    }

    pub open spec fn new_spec() -> CPU {
        CPU { reg: Registers::new_spec(), ime: false, mode: CpuMode::Run, cycles_until_done: 0 }
    }

    /// A CPU in the post-boot state, running, with interrupts disabled.
    pub fn new() -> (r: Self)
        ensures
            r == CPU::new_spec(),
    {
        CPU { reg: Registers::new(), ime: false, mode: CpuMode::Run, cycles_until_done: 0 }
    }

    /// Charges `n` more machine cycles to the current instruction.
    pub fn charge(&mut self, n: u32)
        ensures
            *final(self) == old(self).charged(n),
    {
        self.cycles_until_done = self.cycles_until_done.wrapping_add(n);
    }
}

impl CPU {
    /// Fetches the byte at PC and advances PC.
    pub fn immediate_byte(&mut self, mem: &Memory) -> (r: Immediate<u8>)
        requires
            mem.wf(),
        ensures
            r.0 == read_spec(mem@.bytes, old(self).reg.pc),
            *final(self) == old(self).charged(1).with_pc(wrap16(old(self).reg.pc + 1)),
    {
        self.charge(1);
        let data = mem.read_byte(self.reg.pc);
        self.reg.pc = self.reg.pc.wrapping_add(1);
        Immediate(data)
    }

    /// Fetches the little-endian word at PC and advances PC by two.
    pub fn immediate_word(&mut self, mem: &Memory) -> (r: Immediate<u16>)
        requires
            mem.wf(),
        ensures
            r.0 == read_word_spec(mem@.bytes, old(self).reg.pc),
            *final(self) == old(self).charged(2).with_pc(wrap16(old(self).reg.pc + 2)),
    {
        self.charge(2);
        let data = mem.read_word(self.reg.pc);
        self.reg.pc = self.reg.pc.wrapping_add(2);
        Immediate(data)
    }

    pub fn read_byte(&mut self, mem: &Memory, address: u16) -> (r: u8)
        requires
            mem.wf(),
        ensures
            r == read_spec(mem@.bytes, address),
            *final(self) == old(self).charged(1),
    {
        self.charge(1);
        mem.read_byte(address)
    }

    pub fn read_word(&mut self, mem: &Memory, address: u16) -> (r: u16)
        requires
            mem.wf(),
        ensures
            r == read_word_spec(mem@.bytes, address),
            *final(self) == old(self).charged(2),
    {
        self.charge(2);
        mem.read_word(address)
    }

    pub fn write_byte(&mut self, mem: &mut Memory, address: u16, data: u8)
        requires
            old(mem).wf(),
        ensures
            final(mem).wf(),
            final(mem)@ == mem_write(old(mem)@, address, data),
            *final(self) == old(self).charged(1),
    {
        self.charge(1);
        mem.write_byte(address, data);
    }

    pub fn write_word(&mut self, mem: &mut Memory, address: u16, data: u16)
        requires
            old(mem).wf(),
        ensures
            final(mem).wf(),
            final(mem)@ == mem_write_word(old(mem)@, address, data),
            *final(self) == old(self).charged(2),
    {
        self.charge(2);
        mem.write_word(address, data);
    }
}

/// The byte register that a 3-bit operand code names; code 6 names `(HL)`.
pub open spec fn reg_code_spec(code: u8) -> Option<ByteRegister> {
    if code == 0 {
        Some(ByteRegister::B)
    } else if code == 1 {
        Some(ByteRegister::C)
    } else if code == 2 {
        Some(ByteRegister::D)
    } else if code == 3 {
        Some(ByteRegister::E)
    } else if code == 4 {
        Some(ByteRegister::H)
    } else if code == 5 {
        Some(ByteRegister::L)
    } else if code == 6 {
        None
    } else {
        Some(ByteRegister::A)
    }
}

fn reg_code(code: u8) -> (r: Option<ByteRegister>)
    requires
        code < 8,
    ensures
        r == reg_code_spec(code),
{
    match code {
        0 => Some(ByteRegister::B),
        1 => Some(ByteRegister::C),
        2 => Some(ByteRegister::D),
        3 => Some(ByteRegister::E),
        4 => Some(ByteRegister::H),
        5 => Some(ByteRegister::L),
        6 => None,
        _ => Some(ByteRegister::A),
    }
}

/// Whether the opcode has an instruction.
pub open spec fn implemented(op: u8) -> bool {
    !(op == 0x10 || op == 0x27 || op == 0x37 || op == 0x3F || op == 0xD3 || op == 0xDB || op == 0xDD
        || op == 0xE3 || op == 0xE4 || op == 0xE8 || op == 0xEB || op == 0xEC || op == 0xED || op
        == 0xF4 || op == 0xF8 || op == 0xFC || op == 0xFD)
}

/// Whether the condition that bits 4 and 3 of a conditional opcode select
/// holds: NZ, Z, NC, C.
pub open spec fn taken(op: u8, reg: Registers) -> bool {
    let code = (op / 8) % 4;
    if code == 0 {
        !reg.z()
    } else if code == 1 {
        reg.z()
    } else if code == 2 {
        !reg.cy()
    } else {
        reg.cy()
    }
}

/// The machine cycles of the instruction with opcode `op` (and `cb` after
/// the CB prefix), where `taken` tells whether its condition holds.
pub open spec fn instruction_cycles(op: u8, cb: u8, taken: bool) -> u32 {
    if op == 0xCB {
        if cb % 8 != 6 {
            2
        } else if 0x40 <= cb < 0x80 {
            3
        } else {
            4
        }
    } else if 0x40 <= op < 0x80 {
        if op == 0x76 {
            1
        } else if op % 8 == 6 || (op / 8) % 8 == 6 {
            2
        } else {
            1
        }
    } else if 0x80 <= op < 0xC0 {
        if op % 8 == 6 {
            2
        } else {
            1
        }
    } else if op == 0x20 || op == 0x28 || op == 0x30 || op == 0x38 {
        if taken {
            3
        } else {
            2
        }
    } else if op == 0xC0 || op == 0xC8 || op == 0xD0 || op == 0xD8 {
        if taken {
            5
        } else {
            2
        }
    } else if op == 0xC2 || op == 0xCA || op == 0xD2 || op == 0xDA {
        if taken {
            4
        } else {
            3
        }
    } else if op == 0xC4 || op == 0xCC || op == 0xD4 || op == 0xDC {
        if taken {
            6
        } else {
            3
        }
    } else if op == 0x08 {
        5
    } else if op == 0xCD {
        6
    } else if op == 0xC3 || op == 0xC9 || op == 0xD9 || op == 0xEA || op == 0xFA || (op >= 0xC0
        && op % 8 == 7) || op == 0xC5 || op == 0xD5 || op == 0xE5 || op == 0xF5 {
        4
    } else if op % 16 == 1 || op == 0x34 || op == 0x35 || op == 0x36 || op == 0x18 || op == 0xE0
        || op == 0xF0 {
        3
    } else if op == 0x00 || op == 0x07 || op == 0x0F || op == 0x17 || op == 0x1F || op == 0x2F
        || op == 0xE9 || op == 0xF3 || op == 0xFB || (op < 0x40 && (op % 8 == 4 || op % 8 == 5)) {
        1
    } else {
        2
    }
}

/// The CPU after fetching `n` bytes of the instruction stream.
pub open spec fn fetched(cpu: CPU, n: u32) -> CPU {
    cpu.charged(n).with_pc(wrap16(cpu.reg.pc + n))
}

/// The byte at PC.
pub open spec fn imm8(cpu: CPU, m: MemView) -> u8 {
    read_spec(m.bytes, cpu.reg.pc)
}

/// The little-endian word at PC.
pub open spec fn imm16(cpu: CPU, m: MemView) -> u16 {
    read_word_spec(m.bytes, cpu.reg.pc)
}

/// A state with the zero flag cleared, as the rotates of A leave it.
pub open spec fn without_zero(p: (CPU, MemView)) -> (CPU, MemView) {
    (p.0.with_flags(flags_byte(false, false, false, p.0.reg.cy())), p.1)
}

/// The load block `0x40..=0x7F`: target in bits 5 to 3, source in bits 2
/// to 0, code 6 meaning `(HL)`; `(HL), (HL)` is HALT.
pub open spec fn load_block_effect(op: u8, s: CPU, m: MemView) -> (CPU, MemView) {
    match (reg_code_spec((op / 8) % 8), reg_code_spec(op % 8)) {
        (Some(t), Some(x)) => load_effect(t, x, s, m),
        (Some(t), None) => load_effect(t, Indirect::HL, s, m),
        (None, Some(x)) => load_effect(Indirect::HL, x, s, m),
        (None, None) => (CPU { mode: CpuMode::Halt, ..s }, m),
    }
}

/// The ALU block `0x80..=0xBF`: operation in bits 5 to 3, operand in bits 2
/// to 0.
pub open spec fn alu_block_effect(op: u8, s: CPU, m: MemView) -> CPU {
    let kind = (op / 8) % 8;
    match reg_code_spec(op % 8) {
        Some(x) => alu_effect(kind, s, s.reg.byte_spec(x)),
        None => alu_effect(kind, s.charged(1), read_spec(m.bytes, s.reg.word_spec(WordRegister::HL))),
    }
}

/// CB-prefixed operation `cb` on `data`: shifts and rotates, then BIT, RES
/// and SET, with the bit number in bits 5 to 3.
pub open spec fn cb_op_effect<D: Source<u8> + Target<u8>>(cb: u8, data: D, cpu: CPU, m: MemView) -> (
    CPU,
    MemView,
) {
    if cb < 0x40 {
        shift_effect(cb / 8, data, cpu, m)
    } else if cb < 0x80 {
        (test_bit_effect((cb / 8) % 8, data, cpu, m), m)
    } else if cb < 0xC0 {
        write_bit_effect((cb / 8) % 8, false, data, cpu, m)
    } else {
        write_bit_effect((cb / 8) % 8, true, data, cpu, m)
    }
}

/// A CB-prefixed instruction from the state after the prefix fetch: the
/// second opcode byte is fetched and selects the operation and operand.
pub open spec fn cb_effect(s: CPU, m: MemView) -> (CPU, MemView) {
    let cb = imm8(s, m);
    let s1 = fetched(s, 1);
    match reg_code_spec(cb % 8) {
        Some(x) => cb_op_effect(cb, x, s1, m),
        None => cb_op_effect(cb, Indirect::HL, s1, m),
    }
}

/// The CPU and bus after the instruction with opcode `op`, from the state
/// `s` right after the opcode fetch.
pub open spec fn opcode_effect(op: u8, s: CPU, m: MemView) -> (CPU, MemView) {
    if op < 0x10 {
        row_effect_0(op, s, m)
    } else if op < 0x20 {
        row_effect_1(op, s, m)
    } else if op < 0x30 {
        row_effect_2(op, s, m)
    } else if op < 0x40 {
        row_effect_3(op, s, m)
    } else if op < 0x80 {
        load_block_effect(op, s, m)
    } else if op < 0xC0 {
        (alu_block_effect(op, s, m), m)
    } else if op < 0xD0 {
        row_effect_c(op, s, m)
    } else if op < 0xE0 {
        row_effect_d(op, s, m)
    } else if op < 0xF0 {
        row_effect_e(op, s, m)
    } else {
        row_effect_f(op, s, m)
    }
}

/// The CPU and bus after the instruction with opcode `op` in
/// `0x00..=0x0F`, from the state `s` right after the opcode fetch.
pub open spec fn row_effect_0(op: u8, s: CPU, m: MemView) -> (CPU, MemView) {
    if op == 0x00 {
        (s, m)
    } else if op == 0x01 {
        load_effect(WordRegister::BC, Immediate(imm16(s, m)), fetched(s, 2), m)
    } else if op == 0x02 {
        load_effect(Indirect::BC, ByteRegister::A, s, m)
    } else if op == 0x03 {
        step_word_effect(WordRegister::BC, true, s, m)
    } else if op == 0x04 {
        step_byte_effect(ByteRegister::B, true, s, m)
    } else if op == 0x05 {
        step_byte_effect(ByteRegister::B, false, s, m)
    } else if op == 0x06 {
        load_effect(ByteRegister::B, Immediate(imm8(s, m)), fetched(s, 1), m)
    } else if op == 0x07 {
        without_zero(shift_effect(0, ByteRegister::A, s, m))
    } else if op == 0x08 {
        load_effect(IndirectImmediate(imm16(s, m)), WordRegister::SP, fetched(s, 2), m)
    } else if op == 0x09 {
        add_word_effect(WordRegister::HL, WordRegister::BC, s, m)
    } else if op == 0x0A {
        load_effect(ByteRegister::A, Indirect::BC, s, m)
    } else if op == 0x0B {
        step_word_effect(WordRegister::BC, false, s, m)
    } else if op == 0x0C {
        step_byte_effect(ByteRegister::C, true, s, m)
    } else if op == 0x0D {
        step_byte_effect(ByteRegister::C, false, s, m)
    } else if op == 0x0E {
        load_effect(ByteRegister::C, Immediate(imm8(s, m)), fetched(s, 1), m)
    } else if op == 0x0F {
        without_zero(shift_effect(1, ByteRegister::A, s, m))
    } else {
        (s, m)
    }
}

/// The CPU and bus after the instruction with opcode `op` in
/// `0x10..=0x1F`, from the state `s` right after the opcode fetch.
pub open spec fn row_effect_1(op: u8, s: CPU, m: MemView) -> (CPU, MemView) {
    if op == 0x11 {
        load_effect(WordRegister::DE, Immediate(imm16(s, m)), fetched(s, 2), m)
    } else if op == 0x12 {
        load_effect(Indirect::DE, ByteRegister::A, s, m)
    } else if op == 0x13 {
        step_word_effect(WordRegister::DE, true, s, m)
    } else if op == 0x14 {
        step_byte_effect(ByteRegister::D, true, s, m)
    } else if op == 0x15 {
        step_byte_effect(ByteRegister::D, false, s, m)
    } else if op == 0x16 {
        load_effect(ByteRegister::D, Immediate(imm8(s, m)), fetched(s, 1), m)
    } else if op == 0x17 {
        without_zero(shift_effect(2, ByteRegister::A, s, m))
    } else if op == 0x18 {
        (jump_relative_effect(Condition::Unconditional, s, m), m)
    } else if op == 0x19 {
        add_word_effect(WordRegister::HL, WordRegister::DE, s, m)
    } else if op == 0x1A {
        load_effect(ByteRegister::A, Indirect::DE, s, m)
    } else if op == 0x1B {
        step_word_effect(WordRegister::DE, false, s, m)
    } else if op == 0x1C {
        step_byte_effect(ByteRegister::E, true, s, m)
    } else if op == 0x1D {
        step_byte_effect(ByteRegister::E, false, s, m)
    } else if op == 0x1E {
        load_effect(ByteRegister::E, Immediate(imm8(s, m)), fetched(s, 1), m)
    } else if op == 0x1F {
        without_zero(shift_effect(3, ByteRegister::A, s, m))
    } else {
        (s, m)
    }
}

/// The CPU and bus after the instruction with opcode `op` in
/// `0x20..=0x2F`, from the state `s` right after the opcode fetch.
pub open spec fn row_effect_2(op: u8, s: CPU, m: MemView) -> (CPU, MemView) {
    if op == 0x20 {
        (jump_relative_effect(Condition::Zero(false), s, m), m)
    } else if op == 0x21 {
        load_effect(WordRegister::HL, Immediate(imm16(s, m)), fetched(s, 2), m)
    } else if op == 0x22 {
        load_step_hl_effect(Indirect::HL, ByteRegister::A, true, s, m)
    } else if op == 0x23 {
        step_word_effect(WordRegister::HL, true, s, m)
    } else if op == 0x24 {
        step_byte_effect(ByteRegister::H, true, s, m)
    } else if op == 0x25 {
        step_byte_effect(ByteRegister::H, false, s, m)
    } else if op == 0x26 {
        load_effect(ByteRegister::H, Immediate(imm8(s, m)), fetched(s, 1), m)
    } else if op == 0x28 {
        (jump_relative_effect(Condition::Zero(true), s, m), m)
    } else if op == 0x29 {
        add_word_effect(WordRegister::HL, WordRegister::HL, s, m)
    } else if op == 0x2A {
        load_step_hl_effect(ByteRegister::A, Indirect::HL, true, s, m)
    } else if op == 0x2B {
        step_word_effect(WordRegister::HL, false, s, m)
    } else if op == 0x2C {
        step_byte_effect(ByteRegister::L, true, s, m)
    } else if op == 0x2D {
        step_byte_effect(ByteRegister::L, false, s, m)
    } else if op == 0x2E {
        load_effect(ByteRegister::L, Immediate(imm8(s, m)), fetched(s, 1), m)
    } else if op == 0x2F {
        (complement_effect(s), m)
    } else {
        (s, m)
    }
}

/// The CPU and bus after the instruction with opcode `op` in
/// `0x30..=0x3F`, from the state `s` right after the opcode fetch.
pub open spec fn row_effect_3(op: u8, s: CPU, m: MemView) -> (CPU, MemView) {
    if op == 0x30 {
        (jump_relative_effect(Condition::Carry(false), s, m), m)
    } else if op == 0x31 {
        load_effect(WordRegister::SP, Immediate(imm16(s, m)), fetched(s, 2), m)
    } else if op == 0x32 {
        load_step_hl_effect(Indirect::HL, ByteRegister::A, false, s, m)
    } else if op == 0x33 {
        step_word_effect(WordRegister::SP, true, s, m)
    } else if op == 0x34 {
        step_byte_effect(Indirect::HL, true, s, m)
    } else if op == 0x35 {
        step_byte_effect(Indirect::HL, false, s, m)
    } else if op == 0x36 {
        load_effect(Indirect::HL, Immediate(imm8(s, m)), fetched(s, 1), m)
    } else if op == 0x38 {
        (jump_relative_effect(Condition::Carry(true), s, m), m)
    } else if op == 0x39 {
        add_word_effect(WordRegister::HL, WordRegister::SP, s, m)
    } else if op == 0x3A {
        load_step_hl_effect(ByteRegister::A, Indirect::HL, false, s, m)
    } else if op == 0x3B {
        step_word_effect(WordRegister::SP, false, s, m)
    } else if op == 0x3C {
        step_byte_effect(ByteRegister::A, true, s, m)
    } else if op == 0x3D {
        step_byte_effect(ByteRegister::A, false, s, m)
    } else if op == 0x3E {
        load_effect(ByteRegister::A, Immediate(imm8(s, m)), fetched(s, 1), m)
    } else {
        (s, m)
    }
}

/// The CPU and bus after the instruction with opcode `op` in
/// `0xC0..=0xCF`, from the state `s` right after the opcode fetch.
pub open spec fn row_effect_c(op: u8, s: CPU, m: MemView) -> (CPU, MemView) {
    if op == 0xC0 {
        (return_effect(Condition::Zero(false), s, m), m)
    } else if op == 0xC1 {
        pop_effect(WordRegister::BC, s, m)
    } else if op == 0xC2 {
        (jump_effect(Immediate(imm16(s, m)), Condition::Zero(false), fetched(s, 2), m), m)
    } else if op == 0xC3 {
        (jump_effect(Immediate(imm16(s, m)), Condition::Unconditional, fetched(s, 2), m), m)
    } else if op == 0xC4 {
        call_effect(Immediate(imm16(s, m)), Condition::Zero(false), fetched(s, 2), m)
    } else if op == 0xC5 {
        push_effect(WordRegister::BC, s, m)
    } else if op == 0xC6 {
        (alu_effect(0, fetched(s, 1), imm8(s, m)), m)
    } else if op == 0xC7 {
        restart_effect(0x00, s, m)
    } else if op == 0xC8 {
        (return_effect(Condition::Zero(true), s, m), m)
    } else if op == 0xC9 {
        (return_effect(Condition::Unconditional, s, m), m)
    } else if op == 0xCA {
        (jump_effect(Immediate(imm16(s, m)), Condition::Zero(true), fetched(s, 2), m), m)
    } else if op == 0xCB {
        cb_effect(s, m)
    } else if op == 0xCC {
        call_effect(Immediate(imm16(s, m)), Condition::Zero(true), fetched(s, 2), m)
    } else if op == 0xCD {
        call_effect(Immediate(imm16(s, m)), Condition::Unconditional, fetched(s, 2), m)
    } else if op == 0xCE {
        (alu_effect(1, fetched(s, 1), imm8(s, m)), m)
    } else if op == 0xCF {
        restart_effect(0x08, s, m)
    } else {
        (s, m)
    }
}

/// The CPU and bus after the instruction with opcode `op` in
/// `0xD0..=0xDF`, from the state `s` right after the opcode fetch.
pub open spec fn row_effect_d(op: u8, s: CPU, m: MemView) -> (CPU, MemView) {
    if op == 0xD0 {
        (return_effect(Condition::Carry(false), s, m), m)
    } else if op == 0xD1 {
        pop_effect(WordRegister::DE, s, m)
    } else if op == 0xD2 {
        (jump_effect(Immediate(imm16(s, m)), Condition::Carry(false), fetched(s, 2), m), m)
    } else if op == 0xD4 {
        call_effect(Immediate(imm16(s, m)), Condition::Carry(false), fetched(s, 2), m)
    } else if op == 0xD5 {
        push_effect(WordRegister::DE, s, m)
    } else if op == 0xD6 {
        (alu_effect(2, fetched(s, 1), imm8(s, m)), m)
    } else if op == 0xD7 {
        restart_effect(0x10, s, m)
    } else if op == 0xD8 {
        (return_effect(Condition::Carry(true), s, m), m)
    } else if op == 0xD9 {
        (CPU { ime: true, ..return_effect(Condition::Unconditional, s, m) }, m)
    } else if op == 0xDA {
        (jump_effect(Immediate(imm16(s, m)), Condition::Carry(true), fetched(s, 2), m), m)
    } else if op == 0xDC {
        call_effect(Immediate(imm16(s, m)), Condition::Carry(true), fetched(s, 2), m)
    } else if op == 0xDE {
        (alu_effect(3, fetched(s, 1), imm8(s, m)), m)
    } else if op == 0xDF {
        restart_effect(0x18, s, m)
    } else {
        (s, m)
    }
}

/// The CPU and bus after the instruction with opcode `op` in
/// `0xE0..=0xEF`, from the state `s` right after the opcode fetch.
pub open spec fn row_effect_e(op: u8, s: CPU, m: MemView) -> (CPU, MemView) {
    if op == 0xE0 {
        load_effect(IndirectHighImmediate(imm8(s, m)), ByteRegister::A, fetched(s, 1), m)
    } else if op == 0xE1 {
        pop_effect(WordRegister::HL, s, m)
    } else if op == 0xE2 {
        load_effect(Indirect::HighC, ByteRegister::A, s, m)
    } else if op == 0xE5 {
        push_effect(WordRegister::HL, s, m)
    } else if op == 0xE6 {
        (alu_effect(4, fetched(s, 1), imm8(s, m)), m)
    } else if op == 0xE7 {
        restart_effect(0x20, s, m)
    } else if op == 0xE9 {
        (s.with_pc(s.reg.word_spec(WordRegister::HL)), m)
    } else if op == 0xEA {
        load_effect(IndirectImmediate(imm16(s, m)), ByteRegister::A, fetched(s, 2), m)
    } else if op == 0xEE {
        (alu_effect(5, fetched(s, 1), imm8(s, m)), m)
    } else if op == 0xEF {
        restart_effect(0x28, s, m)
    } else {
        (s, m)
    }
}

/// The CPU and bus after the instruction with opcode `op` in
/// `0xF0..=0xFF`, from the state `s` right after the opcode fetch.
pub open spec fn row_effect_f(op: u8, s: CPU, m: MemView) -> (CPU, MemView) {
    if op == 0xF0 {
        load_effect(ByteRegister::A, IndirectHighImmediate(imm8(s, m)), fetched(s, 1), m)
    } else if op == 0xF1 {
        pop_effect(WordRegister::AF, s, m)
    } else if op == 0xF2 {
        load_effect(ByteRegister::A, Indirect::HighC, s, m)
    } else if op == 0xF3 {
        (CPU { ime: false, ..s }, m)
    } else if op == 0xF5 {
        push_effect(WordRegister::AF, s, m)
    } else if op == 0xF6 {
        (alu_effect(6, fetched(s, 1), imm8(s, m)), m)
    } else if op == 0xF7 {
        restart_effect(0x30, s, m)
    } else if op == 0xF9 {
        (load_effect(WordRegister::SP, WordRegister::HL, s, m).0.charged(1), m)
    } else if op == 0xFA {
        load_effect(ByteRegister::A, IndirectImmediate(imm16(s, m)), fetched(s, 2), m)
    } else if op == 0xFB {
        (CPU { ime: true, ..s }, m)
    } else if op == 0xFE {
        (alu_effect(7, fetched(s, 1), imm8(s, m)), m)
    } else if op == 0xFF {
        restart_effect(0x38, s, m)
    } else {
        (s, m)
    }
}

/// The index of the highest-priority pending interrupt: the lowest set bit
/// of `pending` (V-blank, LCD status, timer, serial, joypad).
pub open spec fn priority_spec(pending: u8) -> u8 {
    if pending & 0x01 != 0 {
        0
    } else if pending & 0x02 != 0 {
        1
    } else if pending & 0x04 != 0 {
        2
    } else if pending & 0x08 != 0 {
        3
    } else {
        4
    }
}

fn priority(pending: u8) -> (r: u8)
    ensures
        r == priority_spec(pending),
        r < 5,
{
    if pending & 0x01 != 0 {
        0
    } else if pending & 0x02 != 0 {
        1
    } else if pending & 0x04 != 0 {
        2
    } else if pending & 0x08 != 0 {
        3
    } else {
        4
    }
}

/// The interrupts that are both requested and enabled.
pub open spec fn pending_spec(bytes: Seq<u8>) -> u8 {
    bytes[IORegister::IF as int] & bytes[IORegister::IE as int] & 0x1F
}

/// The CPU and bus after interrupt dispatch: with IME set and an interrupt
/// pending, its IF bit is cleared, IME is cleared, PC is pushed, PC takes the
/// vector, five cycles are charged and the CPU runs; with IME clear, a
/// pending interrupt only ends HALT.
pub open spec fn dispatch_spec(cpu: CPU, mem: MemView) -> (CPU, MemView) {
    let pending = pending_spec(mem.bytes);
    if cpu.ime && pending != 0 {
        let k = priority_spec(pending);
        let flags = mem.bytes[IORegister::IF as int] & !(1u8 << k);
        let m1 = MemView { bytes: mem.bytes.update(IORegister::IF as int, flags), ..mem };
        let sp = wrap16(cpu.reg.sp - 2);
        (
            CPU {
                ime: false,
                mode: CpuMode::Run,
                reg: Registers { sp, pc: (0x40 + 8 * k) as u16, ..cpu.reg },
                cycles_until_done: add_cycles(cpu.cycles_until_done, 5),
            },
            mem_write_word(m1, sp, cpu.reg.pc),
        )
    } else if !cpu.ime && cpu.mode == CpuMode::Halt && pending != 0 {
        (CPU { mode: CpuMode::Run, ..cpu }, mem)
    } else {
        (cpu, mem)
    }
}

impl CPU {
    /// Fetches an 8-bit literal as an address in the high page.
    pub fn indirect_high_immediate(&mut self, mem: &Memory) -> (r: IndirectHighImmediate)
        requires
            mem.wf(),
        ensures
            r.0 == read_spec(mem@.bytes, old(self).reg.pc),
            *final(self) == old(self).charged(1).with_pc(wrap16(old(self).reg.pc + 1)),
    {
        IndirectHighImmediate(self.immediate_byte(mem).0)
    }

    /// Fetches a 16-bit literal as an address.
    pub fn indirect_immediate(&mut self, mem: &Memory) -> (r: IndirectImmediate)
        requires
            mem.wf(),
        ensures
            r.0 == read_word_spec(mem@.bytes, old(self).reg.pc),
            *final(self) == old(self).charged(2).with_pc(wrap16(old(self).reg.pc + 2)),
    {
        IndirectImmediate(self.immediate_word(mem).0)
    }

    /// One of ADD, ADC, SUB, SBC, AND, XOR, OR, CP, selected by `kind`.
    fn alu_operation<S: Source<u8>>(&mut self, mem: &Memory, kind: u8, byte: S)
        requires
            mem.wf(),
            kind < 8,
        ensures
            final(self).cycles_until_done == add_cycles(
                old(self).cycles_until_done,
                byte.read_cycles(),
            ),
            *final(self) == alu_effect(
                kind,
                old(self).charged(byte.read_cycles()),
                byte.value(*old(self), mem@),
            ),
    {
        match kind {
            0 => self.add_byte(mem, byte),
            1 => self.add_with_carry(mem, byte),
            2 => self.subtract(mem, byte),
            3 => self.subtract_with_carry(mem, byte),
            4 => self.and(mem, byte),
            5 => self.xor(mem, byte),
            6 => self.or(mem, byte),
            _ => self.compare(mem, byte),
        }
    }

    /// The ALU block `0x80..=0xBF`: operation in bits 5 to 3, operand in bits 2 to 0.
    fn select_alu(&mut self, mem: &Memory, opcode: u8)
        requires
            mem.wf(),
            0x80 <= opcode < 0xC0,
            old(self).cycles_until_done == 1,
        ensures
            final(self).cycles_until_done == instruction_cycles(opcode, 0, false),
            *final(self) == alu_block_effect(opcode, *old(self), mem@),
    {
        let kind = (opcode / 8) % 8;
        match reg_code(opcode % 8) {
            Some(r) => self.alu_operation(mem, kind, r),
            None => self.alu_operation(mem, kind, Indirect::HL),
        }
    }

    /// The load block `0x40..=0x7F`: target in bits 5 to 3, source in bits 2
    /// to 0; `(HL), (HL)` is HALT.
    fn select_load_or_halt(&mut self, mem: &mut Memory, opcode: u8)
        requires
            old(mem).wf(),
            0x40 <= opcode < 0x80,
            old(self).cycles_until_done == 1,
        ensures
            final(mem).wf(),
            final(self).cycles_until_done == instruction_cycles(opcode, 0, false),
            (*final(self), final(mem)@) == load_block_effect(opcode, *old(self), old(mem)@),
    {
        let source = reg_code(opcode % 8);
        let target = reg_code((opcode / 8) % 8);
        match (target, source) {
            (Some(t), Some(s)) => self.load(mem, t, s),
            (Some(t), None) => self.load(mem, t, Indirect::HL),
            (None, Some(s)) => self.load(mem, Indirect::HL, s),
            (None, None) => {
                self.halt();
            },
        }
    }

    /// One CB-prefixed operation on `data`: rotates and shifts, SWAP, BIT,
    /// RES and SET, selected by bits 7 to 3 of `cb`.
    fn cb_operation<D: Source<u8> + Target<u8>>(&mut self, mem: &mut Memory, cb: u8, data: D)
        requires
            old(mem).wf(),
        ensures
            final(mem).wf(),
            final(self).cycles_until_done == add_cycles(
                add_cycles(old(self).cycles_until_done, data.read_cycles()),
                if 0x40 <= cb < 0x80 {
                    0
                } else {
                    data.write_cycles()
                },
            ),
            (*final(self), final(mem)@) == cb_op_effect(cb, data, *old(self), old(mem)@),
    {
        proof {
            data.lemma_write_cycles();
        }
        let kind = cb / 8;
        let bit = kind % 8;
        if cb < 0x40 {
            match kind {
                0 => self.rotate_left(mem, data),
                1 => self.rotate_right(mem, data),
                2 => self.rotate_left_through_carry(mem, data),
                3 => self.rotate_right_through_carry(mem, data),
                4 => self.shift_left(mem, data),
                5 => self.shift_right_keep_msb(mem, data),
                6 => self.swap(mem, data),
                _ => self.shift_right(mem, data),
            }
        } else if cb < 0x80 {
            self.test_bit(mem, bit, data);
        } else if cb < 0xC0 {
            self.reset_bit(mem, bit, data);
        } else {
            self.set_bit(mem, bit, data);
        }
    }

    /// Fetches the second opcode byte and executes it from the CB table.
    fn execute_cb(&mut self, mem: &mut Memory)
        requires
            old(mem).wf(),
            old(self).cycles_until_done == 1,
        ensures
            final(mem).wf(),
            final(self).cycles_until_done == instruction_cycles(
                0xCB,
                read_spec(old(mem)@.bytes, old(self).reg.pc),
                false,
            ),
            (*final(self), final(mem)@) == cb_effect(*old(self), old(mem)@),
    {
        let cb = self.immediate_byte(mem).0;
        match reg_code(cb % 8) {
            Some(r) => self.cb_operation(mem, cb, r),
            None => self.cb_operation(mem, cb, Indirect::HL),
        }
    }

    /// Opcodes `0x00..=0x0F`, after the opcode fetch.
    fn execute_row_0(&mut self, mem: &mut Memory, opcode: u8) -> (r: Result<(), CpuError>)
        requires
            old(mem).wf(),
            0 <= opcode <= 15,
            old(self).cycles_until_done == 1,
        ensures
            final(mem).wf(),
            r is Ok ==> (*final(self), final(mem)@) == row_effect_0(opcode, *old(self), old(mem)@),
            match r {
                Ok(()) => implemented(opcode) && final(self).cycles_until_done == instruction_cycles(
                    opcode,
                    0,
                    taken(opcode, old(self).reg),
                ),
                Err(e) => !implemented(opcode) && e == CpuError::UnimplementedOpcode(opcode)
                    && *final(self) == *old(self) && final(mem)@ == old(mem)@,
            },
    {
        match opcode {
            0x00 => self.no_operation(),
            0x01 => {
                let imm = self.immediate_word(mem);
                self.load(mem, WordRegister::BC, imm);
            },
            0x02 => self.load(mem, Indirect::BC, ByteRegister::A),
            0x03 => self.increment_word(mem, WordRegister::BC),
            0x04 => self.increment_byte(mem, ByteRegister::B),
            0x05 => self.decrement_byte(mem, ByteRegister::B),
            0x06 => {
                let imm = self.immediate_byte(mem);
                self.load(mem, ByteRegister::B, imm);
            },
            0x07 => {
                self.rotate_left(mem, ByteRegister::A);
                self.reg.f = make_flags(false, false, false, self.reg.c_flag());
            },
            0x08 => {
                let ind = self.indirect_immediate(mem);
                self.load(mem, ind, WordRegister::SP);
            },
            0x09 => self.add_word(mem, WordRegister::HL, WordRegister::BC),
            0x0A => self.load(mem, ByteRegister::A, Indirect::BC),
            0x0B => self.decrement_word(mem, WordRegister::BC),
            0x0C => self.increment_byte(mem, ByteRegister::C),
            0x0D => self.decrement_byte(mem, ByteRegister::C),
            0x0E => {
                let imm = self.immediate_byte(mem);
                self.load(mem, ByteRegister::C, imm);
            },
            0x0F => {
                self.rotate_right(mem, ByteRegister::A);
                self.reg.f = make_flags(false, false, false, self.reg.c_flag());
            },
            _ => {
                return Err(CpuError::UnimplementedOpcode(opcode));
            },
        }
        Ok(())
    }

    /// Opcodes `0x10..=0x1F`, after the opcode fetch.
    fn execute_row_1(&mut self, mem: &mut Memory, opcode: u8) -> (r: Result<(), CpuError>)
        requires
            old(mem).wf(),
            16 <= opcode <= 31,
            old(self).cycles_until_done == 1,
        ensures
            final(mem).wf(),
            r is Ok ==> (*final(self), final(mem)@) == row_effect_1(opcode, *old(self), old(mem)@),
            match r {
                Ok(()) => implemented(opcode) && final(self).cycles_until_done == instruction_cycles(
                    opcode,
                    0,
                    taken(opcode, old(self).reg),
                ),
                Err(e) => !implemented(opcode) && e == CpuError::UnimplementedOpcode(opcode)
                    && *final(self) == *old(self) && final(mem)@ == old(mem)@,
            },
    {
        match opcode {
            0x11 => {
                let imm = self.immediate_word(mem);
                self.load(mem, WordRegister::DE, imm);
            },
            0x12 => self.load(mem, Indirect::DE, ByteRegister::A),
            0x13 => self.increment_word(mem, WordRegister::DE),
            0x14 => self.increment_byte(mem, ByteRegister::D),
            0x15 => self.decrement_byte(mem, ByteRegister::D),
            0x16 => {
                let imm = self.immediate_byte(mem);
                self.load(mem, ByteRegister::D, imm);
            },
            0x17 => {
                self.rotate_left_through_carry(mem, ByteRegister::A);
                self.reg.f = make_flags(false, false, false, self.reg.c_flag());
            },
            0x18 => self.jump_relative(mem, Condition::Unconditional),
            0x19 => self.add_word(mem, WordRegister::HL, WordRegister::DE),
            0x1A => self.load(mem, ByteRegister::A, Indirect::DE),
            0x1B => self.decrement_word(mem, WordRegister::DE),
            0x1C => self.increment_byte(mem, ByteRegister::E),
            0x1D => self.decrement_byte(mem, ByteRegister::E),
            0x1E => {
                let imm = self.immediate_byte(mem);
                self.load(mem, ByteRegister::E, imm);
            },
            0x1F => {
                self.rotate_right_through_carry(mem, ByteRegister::A);
                self.reg.f = make_flags(false, false, false, self.reg.c_flag());
            },
            _ => {
                return Err(CpuError::UnimplementedOpcode(opcode));
            },
        }
        Ok(())
    }

    /// Opcodes `0x20..=0x2F`, after the opcode fetch.
    fn execute_row_2(&mut self, mem: &mut Memory, opcode: u8) -> (r: Result<(), CpuError>)
        requires
            old(mem).wf(),
            32 <= opcode <= 47,
            old(self).cycles_until_done == 1,
        ensures
            final(mem).wf(),
            r is Ok ==> (*final(self), final(mem)@) == row_effect_2(opcode, *old(self), old(mem)@),
            match r {
                Ok(()) => implemented(opcode) && final(self).cycles_until_done == instruction_cycles(
                    opcode,
                    0,
                    taken(opcode, old(self).reg),
                ),
                Err(e) => !implemented(opcode) && e == CpuError::UnimplementedOpcode(opcode)
                    && *final(self) == *old(self) && final(mem)@ == old(mem)@,
            },
    {
        match opcode {
            0x20 => self.jump_relative(mem, Condition::Zero(false)),
            0x21 => {
                let imm = self.immediate_word(mem);
                self.load(mem, WordRegister::HL, imm);
            },
            0x22 => self.load_and_increment_hl(mem, Indirect::HL, ByteRegister::A),
            0x23 => self.increment_word(mem, WordRegister::HL),
            0x24 => self.increment_byte(mem, ByteRegister::H),
            0x25 => self.decrement_byte(mem, ByteRegister::H),
            0x26 => {
                let imm = self.immediate_byte(mem);
                self.load(mem, ByteRegister::H, imm);
            },
            0x28 => self.jump_relative(mem, Condition::Zero(true)),
            0x29 => self.add_word(mem, WordRegister::HL, WordRegister::HL),
            0x2A => self.load_and_increment_hl(mem, ByteRegister::A, Indirect::HL),
            0x2B => self.decrement_word(mem, WordRegister::HL),
            0x2C => self.increment_byte(mem, ByteRegister::L),
            0x2D => self.decrement_byte(mem, ByteRegister::L),
            0x2E => {
                let imm = self.immediate_byte(mem);
                self.load(mem, ByteRegister::L, imm);
            },
            0x2F => self.complement_a(),
            _ => {
                return Err(CpuError::UnimplementedOpcode(opcode));
            },
        }
        Ok(())
    }

    /// Opcodes `0x30..=0x3F`, after the opcode fetch.
    fn execute_row_3(&mut self, mem: &mut Memory, opcode: u8) -> (r: Result<(), CpuError>)
        requires
            old(mem).wf(),
            48 <= opcode <= 63,
            old(self).cycles_until_done == 1,
        ensures
            final(mem).wf(),
            r is Ok ==> (*final(self), final(mem)@) == row_effect_3(opcode, *old(self), old(mem)@),
            match r {
                Ok(()) => implemented(opcode) && final(self).cycles_until_done == instruction_cycles(
                    opcode,
                    0,
                    taken(opcode, old(self).reg),
                ),
                Err(e) => !implemented(opcode) && e == CpuError::UnimplementedOpcode(opcode)
                    && *final(self) == *old(self) && final(mem)@ == old(mem)@,
            },
    {
        match opcode {
            0x30 => self.jump_relative(mem, Condition::Carry(false)),
            0x31 => {
                let imm = self.immediate_word(mem);
                self.load(mem, WordRegister::SP, imm);
            },
            0x32 => self.load_and_decrement_hl(mem, Indirect::HL, ByteRegister::A),
            0x33 => self.increment_word(mem, WordRegister::SP),
            0x34 => self.increment_byte(mem, Indirect::HL),
            0x35 => self.decrement_byte(mem, Indirect::HL),
            0x36 => {
                let imm = self.immediate_byte(mem);
                self.load(mem, Indirect::HL, imm);
            },
            0x38 => self.jump_relative(mem, Condition::Carry(true)),
            0x39 => self.add_word(mem, WordRegister::HL, WordRegister::SP),
            0x3A => self.load_and_decrement_hl(mem, ByteRegister::A, Indirect::HL),
            0x3B => self.decrement_word(mem, WordRegister::SP),
            0x3C => self.increment_byte(mem, ByteRegister::A),
            0x3D => self.decrement_byte(mem, ByteRegister::A),
            0x3E => {
                let imm = self.immediate_byte(mem);
                self.load(mem, ByteRegister::A, imm);
            },
            _ => {
                return Err(CpuError::UnimplementedOpcode(opcode));
            },
        }
        Ok(())
    }

    /// Opcodes `0xC0..=0xCF`, after the opcode fetch.
    fn execute_row_c(&mut self, mem: &mut Memory, opcode: u8) -> (r: Result<(), CpuError>)
        requires
            old(mem).wf(),
            0xC0 <= opcode <= 0xCF,
            old(self).cycles_until_done == 1,
        ensures
            final(mem).wf(),
            r is Ok ==> (*final(self), final(mem)@) == row_effect_c(opcode, *old(self), old(mem)@),
            match r {
                Ok(()) => implemented(opcode) && final(self).cycles_until_done == instruction_cycles(
                    opcode,
                    read_spec(old(mem)@.bytes, old(self).reg.pc),
                    taken(opcode, old(self).reg),
                ),
                Err(e) => !implemented(opcode) && e == CpuError::UnimplementedOpcode(opcode)
                    && *final(self) == *old(self) && final(mem)@ == old(mem)@,
            },
    {
        match opcode {
            0xC0 => self.ret(mem, Condition::Zero(false)),
            0xC1 => self.pop(mem, WordRegister::BC),
            0xC2 => {
                let imm = self.immediate_word(mem);
                self.jump(mem, imm, Condition::Zero(false));
            },
            0xC3 => {
                let imm = self.immediate_word(mem);
                self.jump(mem, imm, Condition::Unconditional);
            },
            0xC4 => {
                let imm = self.immediate_word(mem);
                self.call(mem, imm, Condition::Zero(false));
            },
            0xC5 => self.push(mem, WordRegister::BC),
            0xC6 => {
                let imm = self.immediate_byte(mem);
                self.add_byte(mem, imm);
            },
            0xC7 => self.restart(mem, 0x00),
            0xC8 => self.ret(mem, Condition::Zero(true)),
            0xC9 => self.ret(mem, Condition::Unconditional),
            0xCA => {
                let imm = self.immediate_word(mem);
                self.jump(mem, imm, Condition::Zero(true));
            },
            0xCB => self.execute_cb(mem),
            0xCC => {
                let imm = self.immediate_word(mem);
                self.call(mem, imm, Condition::Zero(true));
            },
            0xCD => {
                let imm = self.immediate_word(mem);
                self.call(mem, imm, Condition::Unconditional);
            },
            0xCE => {
                let imm = self.immediate_byte(mem);
                self.add_with_carry(mem, imm);
            },
            0xCF => self.restart(mem, 0x08),
            _ => {
                return Err(CpuError::UnimplementedOpcode(opcode));
            },
        }
        Ok(())
    }

    /// Opcodes `0xD0..=0xDF`, after the opcode fetch.
    fn execute_row_d(&mut self, mem: &mut Memory, opcode: u8) -> (r: Result<(), CpuError>)
        requires
            old(mem).wf(),
            0xD0 <= opcode <= 0xDF,
            old(self).cycles_until_done == 1,
        ensures
            final(mem).wf(),
            r is Ok ==> (*final(self), final(mem)@) == row_effect_d(opcode, *old(self), old(mem)@),
            match r {
                Ok(()) => implemented(opcode) && final(self).cycles_until_done == instruction_cycles(
                    opcode,
                    0,
                    taken(opcode, old(self).reg),
                ),
                Err(e) => !implemented(opcode) && e == CpuError::UnimplementedOpcode(opcode)
                    && *final(self) == *old(self) && final(mem)@ == old(mem)@,
            },
    {
        match opcode {
            0xD0 => self.ret(mem, Condition::Carry(false)),
            0xD1 => self.pop(mem, WordRegister::DE),
            0xD2 => {
                let imm = self.immediate_word(mem);
                self.jump(mem, imm, Condition::Carry(false));
            },
            0xD4 => {
                let imm = self.immediate_word(mem);
                self.call(mem, imm, Condition::Carry(false));
            },
            0xD5 => self.push(mem, WordRegister::DE),
            0xD6 => {
                let imm = self.immediate_byte(mem);
                self.subtract(mem, imm);
            },
            0xD7 => self.restart(mem, 0x10),
            0xD8 => self.ret(mem, Condition::Carry(true)),
            0xD9 => self.return_and_enable_interrupts(mem),
            0xDA => {
                let imm = self.immediate_word(mem);
                self.jump(mem, imm, Condition::Carry(true));
            },
            0xDC => {
                let imm = self.immediate_word(mem);
                self.call(mem, imm, Condition::Carry(true));
            },
            0xDE => {
                let imm = self.immediate_byte(mem);
                self.subtract_with_carry(mem, imm);
            },
            0xDF => self.restart(mem, 0x18),
            _ => {
                return Err(CpuError::UnimplementedOpcode(opcode));
            },
        }
        Ok(())
    }

    /// Opcodes `0xE0..=0xEF`, after the opcode fetch.
    fn execute_row_e(&mut self, mem: &mut Memory, opcode: u8) -> (r: Result<(), CpuError>)
        requires
            old(mem).wf(),
            0xE0 <= opcode <= 0xEF,
            old(self).cycles_until_done == 1,
        ensures
            final(mem).wf(),
            r is Ok ==> (*final(self), final(mem)@) == row_effect_e(opcode, *old(self), old(mem)@),
            match r {
                Ok(()) => implemented(opcode) && final(self).cycles_until_done == instruction_cycles(
                    opcode,
                    0,
                    taken(opcode, old(self).reg),
                ),
                Err(e) => !implemented(opcode) && e == CpuError::UnimplementedOpcode(opcode)
                    && *final(self) == *old(self) && final(mem)@ == old(mem)@,
            },
    {
        match opcode {
            0xE0 => {
                let ind = self.indirect_high_immediate(mem);
                self.load(mem, ind, ByteRegister::A);
            },
            0xE1 => self.pop(mem, WordRegister::HL),
            0xE2 => self.load(mem, Indirect::HighC, ByteRegister::A),
            0xE5 => self.push(mem, WordRegister::HL),
            0xE6 => {
                let imm = self.immediate_byte(mem);
                self.and(mem, imm);
            },
            0xE7 => self.restart(mem, 0x20),
            0xE9 => {
                // JP HL takes no cycle beyond its fetch.
                self.jump(mem, WordRegister::HL, Condition::Unconditional);
                self.cycles_until_done = self.cycles_until_done - 1;
            },
            0xEA => {
                let ind = self.indirect_immediate(mem);
                self.load(mem, ind, ByteRegister::A);
            },
            0xEE => {
                let imm = self.immediate_byte(mem);
                self.xor(mem, imm);
            },
            0xEF => self.restart(mem, 0x28),
            _ => {
                return Err(CpuError::UnimplementedOpcode(opcode));
            },
        }
        Ok(())
    }

    /// Opcodes `0xF0..=0xFF`, after the opcode fetch.
    fn execute_row_f(&mut self, mem: &mut Memory, opcode: u8) -> (r: Result<(), CpuError>)
        requires
            old(mem).wf(),
            0xF0 <= opcode <= 0xFF,
            old(self).cycles_until_done == 1,
        ensures
            final(mem).wf(),
            r is Ok ==> (*final(self), final(mem)@) == row_effect_f(opcode, *old(self), old(mem)@),
            match r {
                Ok(()) => implemented(opcode) && final(self).cycles_until_done == instruction_cycles(
                    opcode,
                    0,
                    taken(opcode, old(self).reg),
                ),
                Err(e) => !implemented(opcode) && e == CpuError::UnimplementedOpcode(opcode)
                    && *final(self) == *old(self) && final(mem)@ == old(mem)@,
            },
    {
        match opcode {
            0xF0 => {
                let ind = self.indirect_high_immediate(mem);
                self.load(mem, ByteRegister::A, ind);
            },
            0xF1 => self.pop(mem, WordRegister::AF),
            0xF2 => self.load(mem, ByteRegister::A, Indirect::HighC),
            0xF3 => self.disable_interrupts(),
            0xF5 => self.push(mem, WordRegister::AF),
            0xF6 => {
                let imm = self.immediate_byte(mem);
                self.or(mem, imm);
            },
            0xF7 => self.restart(mem, 0x30),
            0xF9 => {
                // LD SP,HL spends one internal cycle.
                self.load(mem, WordRegister::SP, WordRegister::HL);
                self.charge(1);
            },
            0xFA => {
                let ind = self.indirect_immediate(mem);
                self.load(mem, ByteRegister::A, ind);
            },
            0xFB => self.enable_interrupts(),
            0xFE => {
                let imm = self.immediate_byte(mem);
                self.compare(mem, imm);
            },
            0xFF => self.restart(mem, 0x38),
            _ => {
                return Err(CpuError::UnimplementedOpcode(opcode));
            },
        }
        Ok(())
    }

    /// Fetches, decodes and executes one instruction, charging its machine
    /// cycles.
    pub fn execute(&mut self, mem: &mut Memory) -> (r: Result<(), CpuError>)
        requires
            old(mem).wf(),
            old(self).cycles_until_done == 0,
        ensures
            final(mem).wf(),
            ({
                let op = read_spec(old(mem)@.bytes, old(self).reg.pc);
                let cb = read_spec(old(mem)@.bytes, wrap16(old(self).reg.pc + 1));
                match r {
                    Ok(()) => implemented(op) && final(self).cycles_until_done == instruction_cycles(
                        op,
                        cb,
                        taken(op, old(self).reg),
                    ) && (*final(self), final(mem)@) == opcode_effect(
                        op,
                        fetched(*old(self), 1),
                        old(mem)@,
                    ),
                    Err(e) => !implemented(op) && e == CpuError::UnimplementedOpcode(op) && *final(self)
                        == old(self).charged(1).with_pc(wrap16(old(self).reg.pc + 1)) && final(mem)@
                        == old(mem)@,
                }
            }),
    {
        let opcode = self.immediate_byte(mem).0;
        if opcode < 0x40 {
            if opcode < 0x10 {
                self.execute_row_0(mem, opcode)
            } else if opcode < 0x20 {
                self.execute_row_1(mem, opcode)
            } else if opcode < 0x30 {
                self.execute_row_2(mem, opcode)
            } else {
                self.execute_row_3(mem, opcode)
            }
        } else if opcode < 0x80 {
            self.select_load_or_halt(mem, opcode);
            Ok(())
        } else if opcode < 0xC0 {
            self.select_alu(mem, opcode);
            Ok(())
        } else if opcode < 0xD0 {
            self.execute_row_c(mem, opcode)
        } else if opcode < 0xE0 {
            self.execute_row_d(mem, opcode)
        } else if opcode < 0xF0 {
            self.execute_row_e(mem, opcode)
        } else {
            self.execute_row_f(mem, opcode)
        }
    }

    /// Services the highest-priority pending interrupt when IME is set, or
    /// leaves HALT when an interrupt is pending with IME clear.
    pub fn dispatch_interrupts(&mut self, mem: &mut Memory)
        requires
            old(mem).wf(),
        ensures
            final(mem).wf(),
            (*final(self), final(mem)@) == dispatch_spec(*old(self), old(mem)@),
    {
        let pending = mem.get(IORegister::IF) & mem.get(IORegister::IE) & 0x1F;
        if self.ime {
            if pending != 0 {
                let k = priority(pending);
                let flags = mem.get(IORegister::IF);
                mem.set(IORegister::IF, flags & !(1u8 << k));
                self.ime = false;
                self.reg.sp = self.reg.sp.wrapping_sub(2);
                mem.write_word(self.reg.sp, self.reg.pc);
                self.reg.pc = 0x40 + 8 * k as u16;
                self.charge(5);
                self.mode = CpuMode::Run;
            }
        } else if self.mode == CpuMode::Halt && pending != 0 {
            self.mode = CpuMode::Run;
        }
    }

    /// One machine cycle: interrupt dispatch, then, when running and the
    /// previous instruction is done, the next instruction; then one cycle
    /// of the current instruction passes.
    pub fn tick(&mut self, mem: &mut Memory) -> (r: Result<(), CpuError>)
        requires
            old(mem).wf(),
        ensures
            final(mem).wf(),
            ({
                let d = dispatch_spec(*old(self), old(mem)@);
                let op = read_spec(d.1.bytes, d.0.reg.pc);
                let cb = read_spec(d.1.bytes, wrap16(d.0.reg.pc + 1));
                if d.0.mode == CpuMode::Halt {
                    r is Ok && *final(self) == d.0 && final(mem)@ == d.1
                } else if d.0.cycles_until_done != 0 {
                    r is Ok && *final(self) == (CPU {
                        cycles_until_done: (d.0.cycles_until_done - 1) as u32,
                        ..d.0
                    }) && final(mem)@ == d.1
                } else {
                    let e = opcode_effect(op, fetched(d.0, 1), d.1);
                    match r {
                        Ok(()) => implemented(op) && final(self).cycles_until_done
                            == instruction_cycles(op, cb, taken(op, d.0.reg)) - 1 && *final(self)
                            == (CPU { cycles_until_done: (e.0.cycles_until_done - 1) as u32, ..e.0 })
                            && final(mem)@ == e.1,
                        Err(e) => !implemented(op) && e == CpuError::UnimplementedOpcode(op)
                            && *final(self) == fetched(d.0, 1) && final(mem)@ == d.1,
                    }
                }
            }),
            (*final(self), final(mem)@, r) == tick_spec(*old(self), old(mem)@),
    {
        self.dispatch_interrupts(mem);
        if self.mode == CpuMode::Run {
            if self.cycles_until_done == 0 {
                match self.execute(mem) {
                    Ok(()) => {},
                    Err(e) => {
                        return Err(e);
                    },
                }
            }
            self.cycles_until_done = self.cycles_until_done - 1;
        }
        Ok(())
    }
}

/// The CPU, the bus and the result after one machine cycle of the CPU:
/// interrupt dispatch; nothing more in HALT; one cycle of the current
/// instruction when it is not done; else the next instruction is executed
/// and its first cycle passes, or an unimplemented opcode stops the CPU
/// after its fetch.
pub open spec fn tick_spec(cpu: CPU, mem: MemView) -> (CPU, MemView, Result<(), CpuError>) {
    let d = dispatch_spec(cpu, mem);
    if d.0.mode == CpuMode::Halt {
        (d.0, d.1, Ok(()))
    } else if d.0.cycles_until_done != 0 {
        (CPU { cycles_until_done: (d.0.cycles_until_done - 1) as u32, ..d.0 }, d.1, Ok(()))
    } else {
        let op = read_spec(d.1.bytes, d.0.reg.pc);
        if implemented(op) {
            let e = opcode_effect(op, fetched(d.0, 1), d.1);
            (CPU { cycles_until_done: (e.0.cycles_until_done - 1) as u32, ..e.0 }, e.1, Ok(()))
        } else {
            (fetched(d.0, 1), d.1, Err(CpuError::UnimplementedOpcode(op)))
        }
    }
}

/// Interrupt precedence: with IME set and an interrupt pending, dispatch
/// services exactly one, the pending one of lowest bit (V-blank, then LCD
/// status, timer, serial, joypad): PC takes its vector, IME is cleared, the
/// CPU runs and five cycles are charged.
pub proof fn lemma_dispatch_precedence(cpu: CPU, mem: MemView)
    requires
        mem.bytes.len() == MEMORY_SIZE,
        cpu.ime,
        pending_spec(mem.bytes) != 0,
    ensures
        ({
            let p = pending_spec(mem.bytes);
            let k = priority_spec(p);
            let d = dispatch_spec(cpu, mem);
            &&& k < 5
            &&& p & (1u8 << k) != 0
            &&& forall|j: u8| j < k ==> p & (1u8 << j) == 0
            &&& d.0.reg.pc == 0x40 + 8 * k
            &&& !d.0.ime
            &&& d.0.mode == CpuMode::Run
            &&& d.0.cycles_until_done == add_cycles(cpu.cycles_until_done, 5)
        }),
{
    let p = pending_spec(mem.bytes);
    let iflag = mem.bytes[IORegister::IF as int];
    let ie = mem.bytes[IORegister::IE as int];
    assert(p == iflag & ie & 0x1F);
    assert(iflag & ie & 0x1F != 0 ==> (iflag & ie & 0x1F) & 0x01 != 0 || (iflag & ie & 0x1F) & 0x02
        != 0 || (iflag & ie & 0x1F) & 0x04 != 0 || (iflag & ie & 0x1F) & 0x08 != 0 || (iflag & ie
        & 0x1F) & 0x10 != 0) by (bit_vector);
    assert(forall|j: u8| j < 5 ==> #[trigger] (1u8 << j) == if j == 0 {
        1u8
    } else if j == 1 {
        2u8
    } else if j == 2 {
        4u8
    } else if j == 3 {
        8u8
    } else {
        16u8
    }) by (bit_vector);
}

/// With every interrupt requested and enabled, successive dispatches take
/// V-blank, LCD status, timer, serial and joypad in that order, each
/// clearing its own request bit.
pub proof fn lemma_dispatch_order()
    ensures
        priority_spec(0x1F) == 0 && 0x1Fu8 & !(1u8 << 0u8) == 0x1E,
        priority_spec(0x1E) == 1 && 0x1Eu8 & !(1u8 << 1u8) == 0x1C,
        priority_spec(0x1C) == 2 && 0x1Cu8 & !(1u8 << 2u8) == 0x18,
        priority_spec(0x18) == 3 && 0x18u8 & !(1u8 << 3u8) == 0x10,
        priority_spec(0x10) == 4 && 0x10u8 & !(1u8 << 4u8) == 0x00,
{
    assert(0x1Fu8 & 0x01 != 0 && 0x1Eu8 & 0x01 == 0 && 0x1Eu8 & 0x02 != 0 && 0x1Cu8 & 0x01 == 0
        && 0x1Cu8 & 0x02 == 0 && 0x1Cu8 & 0x04 != 0 && 0x18u8 & 0x01 == 0 && 0x18u8 & 0x02 == 0
        && 0x18u8 & 0x04 == 0 && 0x18u8 & 0x08 != 0 && 0x10u8 & 0x01 == 0 && 0x10u8 & 0x02 == 0
        && 0x10u8 & 0x04 == 0 && 0x10u8 & 0x08 == 0) by (bit_vector);
    assert(0x1Fu8 & !(1u8 << 0u8) == 0x1E && 0x1Eu8 & !(1u8 << 1u8) == 0x1C && 0x1Cu8 & !(1u8 << 2u8)
        == 0x18 && 0x18u8 & !(1u8 << 3u8) == 0x10 && 0x10u8 & !(1u8 << 4u8) == 0x00) by (bit_vector);
}

/// The machine-cycle table: NOP 1; LD r,r 1; LD r,(HL) 2; JP nn 4; JP cc,nn
/// 4 taken and 3 not; CALL nn 6; RET 4; RETI 4; PUSH rr 4; POP rr 3;
/// ADD A,(HL) 2; BIT b,r 2; BIT b,(HL) 3; SET b,(HL) 4; JR cc 3 taken and
/// 2 not; CALL cc 6 taken and 3 not.
pub proof fn lemma_cycle_table(op: u8, cb: u8, taken: bool)
    ensures
        instruction_cycles(0x00, cb, taken) == 1,
        0x40 <= op < 0x80 && op % 8 != 6 && (op / 8) % 8 != 6 ==> instruction_cycles(op, cb, taken)
            == 1,
        0x40 <= op < 0x80 && op % 8 == 6 && op != 0x76 ==> instruction_cycles(op, cb, taken) == 2,
        instruction_cycles(0xC3, cb, taken) == 4,
        (op == 0xC2 || op == 0xCA || op == 0xD2 || op == 0xDA) ==> instruction_cycles(op, cb, taken)
            == if taken {
            4u32
        } else {
            3u32
        },
        instruction_cycles(0xCD, cb, taken) == 6,
        instruction_cycles(0xC9, cb, taken) == 4,
        instruction_cycles(0xD9, cb, taken) == 4,
        (op == 0xC5 || op == 0xD5 || op == 0xE5 || op == 0xF5) ==> instruction_cycles(op, cb, taken)
            == 4,
        (op == 0xC1 || op == 0xD1 || op == 0xE1 || op == 0xF1) ==> instruction_cycles(op, cb, taken)
            == 3,
        instruction_cycles(0x86, cb, taken) == 2,
        0x40 <= cb < 0x80 && cb % 8 != 6 ==> instruction_cycles(0xCB, cb, taken) == 2,
        0x40 <= cb < 0x80 && cb % 8 == 6 ==> instruction_cycles(0xCB, cb, taken) == 3,
        0xC0 <= cb && cb % 8 == 6 ==> instruction_cycles(0xCB, cb, taken) == 4,
        (op == 0x20 || op == 0x28 || op == 0x30 || op == 0x38) ==> instruction_cycles(op, cb, taken)
            == if taken {
            3u32
        } else {
            2u32
        },
        (op == 0xC4 || op == 0xCC || op == 0xD4 || op == 0xDC) ==> instruction_cycles(op, cb, taken)
            == if taken {
            6u32
        } else {
            3u32
        },
{
}

} // verus!
