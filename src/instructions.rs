use vstd::prelude::*;
use crate::cpu::{CPU, CpuMode, wrap8, wrap16, mem_write_word};
use crate::memory::{Memory, MemView, read_spec, read_word_spec};
use crate::operands::{Source, Target};
use crate::registers::{Registers, WordRegister, flags_byte, make_flags};

verus! {

/// The condition under which a jump, call or return is taken.
#[derive(Clone, Copy, Debug, PartialEq, Eq, Structural)]
pub enum Condition {
    Unconditional,
    Zero(bool),
    Carry(bool),
}

/// The signed value of a two's-complement byte.
pub open spec fn signed8(b: u8) -> int {
    if b < 128 {
        b as int
    } else {
        b - 256
    }
}

/// Whether bit `b` of `v` is set.
pub open spec fn bit_of(v: u8, b: u8) -> bool {
    (v >> b) & 1 == 1
}

/// `v` with its two nibbles exchanged.
pub open spec fn swap_spec(v: u8) -> u8 {
    ((v % 16) * 16 + v / 16) as u8
}

pub open spec fn rlc_spec(v: u8) -> u8 {
    ((v % 128) * 2 + v / 128) as u8
}

pub open spec fn rrc_spec(v: u8) -> u8 {
    (v / 2 + (v % 2) * 128) as u8
}

pub open spec fn rl_spec(v: u8, carry: bool) -> u8 {
    ((v % 128) * 2 + if carry { 1int } else { 0 }) as u8
}

pub open spec fn rr_spec(v: u8, carry: bool) -> u8 {
    (v / 2 + if carry { 128int } else { 0 }) as u8
}

pub open spec fn sla_spec(v: u8) -> u8 {
    ((v % 128) * 2) as u8
}

pub open spec fn sra_spec(v: u8) -> u8 {
    (v / 2 + if v >= 128 { 128int } else { 0 }) as u8
}

pub open spec fn srl_spec(v: u8) -> u8 {
    (v / 2) as u8
}

/// The CPU after ALU operation `kind` (ADD, ADC, SUB, SBC, AND, XOR, OR, CP)
/// on A and the operand `v`; `cpu` has already paid for reading `v`.
pub open spec fn alu_effect(kind: u8, cpu: CPU, v: u8) -> CPU {
    let a = cpu.reg.a;
    let c: int = if cpu.reg.cy() {
        1
    } else {
        0
    };
    if kind == 0 {
        let r = wrap8(a + v);
        cpu.with_a(r).with_flags(flags_byte(r == 0, false, a % 16 + v % 16 > 15, a + v > 255))
    } else if kind == 1 {
        let r = ((a + v + c) % 256) as u8;
        cpu.with_a(r).with_flags(flags_byte(r == 0, false, a % 16 + v % 16 + c > 15, a + v + c > 255))
    } else if kind == 2 {
        let r = wrap8(a - v);
        cpu.with_a(r).with_flags(flags_byte(r == 0, true, a % 16 < v % 16, a < v))
    } else if kind == 3 {
        let r = wrap8(a - v - c);
        cpu.with_a(r).with_flags(flags_byte(r == 0, true, a % 16 < v % 16 + c, a < v + c))
    } else if kind == 4 {
        let r = a & v;
        cpu.with_a(r).with_flags(flags_byte(r == 0, false, true, false))
    } else if kind == 5 {
        let r = a ^ v;
        cpu.with_a(r).with_flags(flags_byte(r == 0, false, false, false))
    } else if kind == 6 {
        let r = a | v;
        cpu.with_a(r).with_flags(flags_byte(r == 0, false, false, false))
    } else {
        cpu.with_flags(flags_byte(a == v, true, a % 16 < v % 16, a < v))
    }
}

/// JP: when the condition holds, one more cycle and PC takes the operand.
pub open spec fn jump_effect<S: Source<u16>>(word: S, cond: Condition, cpu: CPU, mem: MemView) -> CPU {
    let s = cpu.charged(word.read_cycles());
    if cond.holds(cpu.reg) {
        s.charged(1).with_pc(word.value(cpu, mem))
    } else {
        s
    }
}

/// JR: the signed offset at PC is fetched; when the condition holds, one
/// more cycle and it is added to PC.
pub open spec fn jump_relative_effect(cond: Condition, cpu: CPU, mem: MemView) -> CPU {
    let offset = read_spec(mem.bytes, cpu.reg.pc);
    let s = cpu.charged(1).with_pc(wrap16(cpu.reg.pc + 1));
    if cond.holds(cpu.reg) {
        s.charged(1).with_pc(wrap16(s.reg.pc + signed8(offset)))
    } else {
        s
    }
}

/// LD: the source is read, then the target written.
pub open spec fn load_effect<T, U: Target<T>, V: Source<T>>(target: U, source: V, cpu: CPU, mem: MemView) -> (
    CPU,
    MemView,
) {
    target.stored(cpu.charged(source.read_cycles()), mem, source.value(cpu, mem))
}

/// INC or DEC of a byte: Z and H from the result, N set for DEC, C kept.
pub open spec fn step_byte_effect<D: Source<u8> + Target<u8>>(data: D, up: bool, cpu: CPU, mem: MemView) -> (
    CPU,
    MemView,
) {
    let v = data.value(cpu, mem);
    let r = if up {
        wrap8(v + 1)
    } else {
        wrap8(v - 1)
    };
    let s = data.stored(cpu.charged(data.read_cycles()), mem, r);
    let h = if up {
        r % 16 == 0
    } else {
        r % 16 == 15
    };
    (s.0.with_flags(flags_byte(r == 0, !up, h, cpu.reg.cy())), s.1)
}

/// INC or DEC of a word: no flags, one internal cycle.
pub open spec fn step_word_effect<D: Source<u16> + Target<u16>>(data: D, up: bool, cpu: CPU, mem: MemView) -> (
    CPU,
    MemView,
) {
    let v = data.value(cpu, mem);
    let r = if up {
        wrap16(v + 1)
    } else {
        wrap16(v - 1)
    };
    let s = data.stored(cpu.charged(data.read_cycles()), mem, r);
    (s.0.charged(1), s.1)
}

/// LDI or LDD: a load, then HL steps up or down.
pub open spec fn load_step_hl_effect<T, U: Target<T>, V: Source<T>>(
    target: U,
    source: V,
    up: bool,
    cpu: CPU,
    mem: MemView,
) -> (CPU, MemView) {
    let s = load_effect(target, source, cpu, mem);
    let hl = s.0.reg.word_spec(WordRegister::HL);
    let next = if up {
        wrap16(hl + 1)
    } else {
        wrap16(hl - 1)
    };
    (s.0.with_reg(s.0.reg.with_word(WordRegister::HL, next)), s.1)
}

/// PUSH: SP goes down by two, the word is written there, and one internal
/// cycle is spent.
pub open spec fn push_effect<S: Source<u16>>(source: S, cpu: CPU, mem: MemView) -> (CPU, MemView) {
    let sp = wrap16(cpu.reg.sp - 2);
    (
        cpu.charged(source.read_cycles()).with_sp(sp).charged(2).charged(1),
        mem_write_word(mem, sp, source.value(cpu, mem)),
    )
}

/// POP: the word at SP is read into the target, then SP goes up by two.
pub open spec fn pop_effect<T: Target<u16>>(target: T, cpu: CPU, mem: MemView) -> (CPU, MemView) {
    let v = read_word_spec(mem.bytes, cpu.reg.sp);
    let s = target.stored(cpu.charged(2), mem, v);
    (s.0.with_sp(wrap16(s.0.reg.sp + 2)), s.1)
}

/// CALL: when the condition holds, PC is pushed, one internal cycle is
/// spent and PC takes the operand.
pub open spec fn call_effect<S: Source<u16>>(word: S, cond: Condition, cpu: CPU, mem: MemView) -> (
    CPU,
    MemView,
) {
    let s = cpu.charged(word.read_cycles());
    let sp = wrap16(s.reg.sp - 2);
    if cond.holds(cpu.reg) {
        (s.with_sp(sp).charged(3).with_pc(word.value(cpu, mem)), mem_write_word(mem, sp, s.reg.pc))
    } else {
        (s, mem)
    }
}

/// RST: PC is pushed and takes a fixed address in page zero.
pub open spec fn restart_effect(address: u8, cpu: CPU, mem: MemView) -> (CPU, MemView) {
    let sp = wrap16(cpu.reg.sp - 2);
    (cpu.with_sp(sp).charged(3).with_pc(address as u16), mem_write_word(mem, sp, cpu.reg.pc))
}

/// RET: a conditional return spends one cycle on the test; when taken, PC
/// is popped and one more cycle is spent.
pub open spec fn return_effect(cond: Condition, cpu: CPU, mem: MemView) -> CPU {
    let s = if cond == Condition::Unconditional {
        cpu
    } else {
        cpu.charged(1)
    };
    if cond.holds(cpu.reg) {
        s.charged(2).with_pc(read_word_spec(mem.bytes, cpu.reg.sp)).with_sp(wrap16(cpu.reg.sp + 2)).charged(1)
    } else {
        s
    }
}

/// CPL: A is inverted; N and H set, Z and C kept.
pub open spec fn complement_effect(cpu: CPU) -> CPU {
    cpu.with_a((255 - cpu.reg.a) as u8).with_flags(flags_byte(cpu.reg.z(), true, true, cpu.reg.cy()))
}

/// The result of shift or rotate `kind` (RLC, RRC, RL, RR, SLA, SRA, SWAP,
/// SRL) of `v`, with carry-in `carry`.
pub open spec fn shift_result(kind: u8, v: u8, carry: bool) -> u8 {
    if kind == 0 {
        rlc_spec(v)
    } else if kind == 1 {
        rrc_spec(v)
    } else if kind == 2 {
        rl_spec(v, carry)
    } else if kind == 3 {
        rr_spec(v, carry)
    } else if kind == 4 {
        sla_spec(v)
    } else if kind == 5 {
        sra_spec(v)
    } else if kind == 6 {
        swap_spec(v)
    } else {
        srl_spec(v)
    }
}

/// The carry out of shift or rotate `kind` of `v`: bit 7 for the left
/// shifts, bit 0 for the right ones, none for SWAP.
pub open spec fn shift_carry(kind: u8, v: u8) -> bool {
    if kind == 0 || kind == 2 || kind == 4 {
        v >= 128
    } else if kind == 6 {
        false
    } else {
        v % 2 == 1
    }
}

/// A CB-prefixed shift, rotate or SWAP of `data`: Z from the result, N and
/// H cleared, C from the bit shifted out.
pub open spec fn shift_effect<D: Source<u8> + Target<u8>>(kind: u8, data: D, cpu: CPU, mem: MemView) -> (
    CPU,
    MemView,
) {
    let v = data.value(cpu, mem);
    let r = shift_result(kind, v, cpu.reg.cy());
    let s = data.stored(cpu.charged(data.read_cycles()), mem, r);
    (s.0.with_flags(flags_byte(r == 0, false, false, shift_carry(kind, v))), s.1)
}

/// BIT: Z set when the bit is clear; N cleared, H set, C kept.
pub open spec fn test_bit_effect<S: Source<u8>>(b: u8, data: S, cpu: CPU, mem: MemView) -> CPU {
    cpu.charged(data.read_cycles()).with_flags(
        flags_byte(!bit_of(data.value(cpu, mem), b), false, true, cpu.reg.cy()),
    )
}

/// RES or SET of bit `b` of `data`.
pub open spec fn write_bit_effect<D: Source<u8> + Target<u8>>(b: u8, set: bool, data: D, cpu: CPU, mem: MemView) -> (
    CPU,
    MemView,
) {
    let v = data.value(cpu, mem);
    let r = if set {
        v | (1u8 << b)
    } else {
        v & !(1u8 << b)
    };
    data.stored(cpu.charged(data.read_cycles()), mem, r)
}

/// ADD HL,rr: N cleared, H on carry out of bit 11, C on carry out of bit
/// 15, Z kept; one internal cycle.
pub open spec fn add_word_effect<T: Source<u16> + Target<u16>, S: Source<u16>>(
    target: T,
    source: S,
    cpu: CPU,
    mem: MemView,
) -> (CPU, MemView) {
    let v = source.value(cpu, mem);
    let s1 = cpu.charged(source.read_cycles());
    let t = target.value(s1, mem);
    let s2 = s1.charged(target.read_cycles());
    let st = target.stored(s2, mem, wrap16(t + v));
    (
        st.0.charged(1).with_flags(
            flags_byte(cpu.reg.z(), false, t % 4096 + v % 4096 > 4095, t + v > 65535),
        ),
        st.1,
    )
}

impl Condition {
    pub open spec fn holds(&self, reg: Registers) -> bool {
        match self {
            Condition::Unconditional => true,
            Condition::Zero(flag) => reg.z() == *flag,
            Condition::Carry(flag) => reg.cy() == *flag,
        }
    }

    pub fn is_satisfied(&self, cpu: &CPU) -> (r: bool)
        ensures
            r == self.holds(cpu.reg),
    {
        match self {
            Condition::Unconditional => true,
            Condition::Zero(flag) => cpu.reg.z_flag() == *flag,
            Condition::Carry(flag) => cpu.reg.c_flag() == *flag,
        }
    }
}

impl CPU {
    /// NOP
    pub fn no_operation(&mut self)
        ensures
            *final(self) == *old(self),
    {
    }

    /// JP: when the condition holds, one more cycle and PC takes the operand.
    pub fn jump<S: Source<u16>>(&mut self, mem: &Memory, word: S, cond: Condition)
        requires
            mem.wf(),
        ensures
            *final(self) == jump_effect(word, cond, *old(self), mem@),
    {
        let address = word.read(self, mem);
        if cond.is_satisfied(self) {
            self.charge(1);
            self.reg.pc = address;
        }
    }

    /// JR: reads a signed offset; when the condition holds, one more cycle
    /// and the offset is added to PC.
    pub fn jump_relative(&mut self, mem: &Memory, cond: Condition)
        requires
            mem.wf(),
        ensures
            *final(self) == jump_relative_effect(cond, *old(self), mem@),
    {
        let offset = self.immediate_byte(mem).0;
        if cond.is_satisfied(self) {
            self.charge(1);
            if offset < 128 {
                self.reg.pc = self.reg.pc.wrapping_add(offset as u16);
            } else {
                self.reg.pc = self.reg.pc.wrapping_sub(256 - offset as u16);
            }
        }
    }

    /// ADD A: H on carry out of bit 3, C on carry out of bit 7.
    pub fn add_byte<S: Source<u8>>(&mut self, mem: &Memory, byte: S)
        requires
            mem.wf(),
        ensures
            *final(self) == alu_effect(0, old(self).charged(byte.read_cycles()), byte.value(*old(self), mem@)),
    {
        let v = byte.read(self, mem);
        let a = self.reg.a;
        let r = a.wrapping_add(v);
        self.reg.a = r;
        self.reg.f = make_flags(r == 0, false, a % 16 + v % 16 > 15, a as u16 + v as u16 > 255);
    }

    /// ADC: adds the operand and the carry flag to A.
    pub fn add_with_carry<S: Source<u8>>(&mut self, mem: &Memory, byte: S)
        requires
            mem.wf(),
        ensures
            *final(self) == alu_effect(1, old(self).charged(byte.read_cycles()), byte.value(*old(self), mem@)),
    {
        let v = byte.read(self, mem);
        let a = self.reg.a;
        let c: u16 = if self.reg.c_flag() { 1 } else { 0 };
        let sum: u16 = a as u16 + v as u16 + c;
        let r = (sum % 256) as u8;
        self.reg.a = r;
        self.reg.f = make_flags(r == 0, false, (a % 16) as u16 + (v % 16) as u16 + c > 15, sum > 255);
    }

    /// SUB: H on borrow from bit 4, C on borrow.
    pub fn subtract<S: Source<u8>>(&mut self, mem: &Memory, byte: S)
        requires
            mem.wf(),
        ensures
            *final(self) == alu_effect(2, old(self).charged(byte.read_cycles()), byte.value(*old(self), mem@)),
    {
        let v = byte.read(self, mem);
        let a = self.reg.a;
        let r = a.wrapping_sub(v);
        self.reg.a = r;
        self.reg.f = make_flags(r == 0, true, a % 16 < v % 16, a < v);
    }

    /// SBC: subtracts the operand and the carry flag from A.
    pub fn subtract_with_carry<S: Source<u8>>(&mut self, mem: &Memory, byte: S)
        requires
            mem.wf(),
        ensures
            *final(self) == alu_effect(3, old(self).charged(byte.read_cycles()), byte.value(*old(self), mem@)),
    {
        let v = byte.read(self, mem);
        let a = self.reg.a;
        let c: u16 = if self.reg.c_flag() { 1 } else { 0 };
        let sub: u16 = v as u16 + c;
        let r: u8 = if (a as u16) < sub {
            (a as u16 + 256 - sub) as u8
        } else {
            (a as u16 - sub) as u8
        };
        self.reg.a = r;
        self.reg.f = make_flags(r == 0, true, ((a % 16) as u16) < (v % 16) as u16 + c, (a as u16) < sub);
    }

    /// AND: Z from the result, H set, N and C cleared.
    pub fn and<S: Source<u8>>(&mut self, mem: &Memory, byte: S)
        requires
            mem.wf(),
        ensures
            *final(self) == alu_effect(4, old(self).charged(byte.read_cycles()), byte.value(*old(self), mem@)),
    {
        let v = byte.read(self, mem);
        self.reg.a = self.reg.a & v;
        self.reg.f = make_flags(self.reg.a == 0, false, true, false);
    }

    /// OR: Z from the result, the other flags cleared.
    pub fn or<S: Source<u8>>(&mut self, mem: &Memory, byte: S)
        requires
            mem.wf(),
        ensures
            *final(self) == alu_effect(6, old(self).charged(byte.read_cycles()), byte.value(*old(self), mem@)),
    {
        let v = byte.read(self, mem);
        self.reg.a = self.reg.a | v;
        self.reg.f = make_flags(self.reg.a == 0, false, false, false);
    }

    /// XOR: Z from the result, the other flags cleared.
    pub fn xor<S: Source<u8>>(&mut self, mem: &Memory, byte: S)
        requires
            mem.wf(),
        ensures
            *final(self) == alu_effect(5, old(self).charged(byte.read_cycles()), byte.value(*old(self), mem@)),
    {
        let v = byte.read(self, mem);
        self.reg.a = self.reg.a ^ v;
        self.reg.f = make_flags(self.reg.a == 0, false, false, false);
    }

    /// CP: the flags of a subtraction from A, with A unchanged.
    pub fn compare<S: Source<u8>>(&mut self, mem: &Memory, byte: S)
        requires
            mem.wf(),
        ensures
            *final(self) == alu_effect(7, old(self).charged(byte.read_cycles()), byte.value(*old(self), mem@)),
    {
        let v = byte.read(self, mem);
        let a = self.reg.a;
        self.reg.f = make_flags(a == v, true, a % 16 < v % 16, a < v);
    }

    /// LD: reads the source, then writes the target.
    pub fn load<T, U: Target<T>, V: Source<T>>(&mut self, mem: &mut Memory, target: U, source: V)
        requires
            old(mem).wf(),
        ensures
            final(mem).wf(),
            (*final(self), final(mem)@) == load_effect(target, source, *old(self), old(mem)@),
    {
        let data = source.read(self, mem);
        target.write(self, mem, data);
    }

    /// DEC (8-bit): C is kept, H set on borrow from bit 4.
    pub fn decrement_byte<D: Source<u8> + Target<u8>>(&mut self, mem: &mut Memory, data: D)
        requires
            old(mem).wf(),
        ensures
            final(mem).wf(),
            (*final(self), final(mem)@) == step_byte_effect(data, false, *old(self), old(mem)@),
    {
        let carry = self.reg.c_flag();
        let r = data.read(self, mem).wrapping_sub(1);
        data.write(self, mem, r);
        self.reg.f = make_flags(r == 0, true, r % 16 == 15, carry);
    }

    /// INC (8-bit): C is kept, H set on carry out of bit 3.
    pub fn increment_byte<D: Source<u8> + Target<u8>>(&mut self, mem: &mut Memory, data: D)
        requires
            old(mem).wf(),
        ensures
            final(mem).wf(),
            (*final(self), final(mem)@) == step_byte_effect(data, true, *old(self), old(mem)@),
    {
        let carry = self.reg.c_flag();
        let r = data.read(self, mem).wrapping_add(1);
        data.write(self, mem, r);
        self.reg.f = make_flags(r == 0, false, r % 16 == 0, carry);
    }

    /// DEC (16-bit): no flags, one internal cycle.
    pub fn decrement_word<D: Source<u16> + Target<u16>>(&mut self, mem: &mut Memory, data: D)
        requires
            old(mem).wf(),
        ensures
            final(mem).wf(),
            (*final(self), final(mem)@) == step_word_effect(data, false, *old(self), old(mem)@),
    {
        let r = data.read(self, mem).wrapping_sub(1);
        data.write(self, mem, r);
        self.charge(1);
    }

    /// INC (16-bit): no flags, one internal cycle.
    pub fn increment_word<D: Source<u16> + Target<u16>>(&mut self, mem: &mut Memory, data: D)
        requires
            old(mem).wf(),
        ensures
            final(mem).wf(),
            (*final(self), final(mem)@) == step_word_effect(data, true, *old(self), old(mem)@),
    {
        let r = data.read(self, mem).wrapping_add(1);
        data.write(self, mem, r);
        self.charge(1);
    }

    /// LDD: a load, then HL is decremented.
    pub fn load_and_decrement_hl<T, U: Target<T>, V: Source<T>>(
        &mut self,
        mem: &mut Memory,
        target: U,
        source: V,
    )
        requires
            old(mem).wf(),
        ensures
            final(mem).wf(),
            (*final(self), final(mem)@) == load_step_hl_effect(target, source, false, *old(self), old(mem)@),
    {
        self.load(mem, target, source);
        let hl = self.reg.hl();
        self.reg.set_hl(hl.wrapping_sub(1));
    }

    /// LDI: a load, then HL is incremented.
    pub fn load_and_increment_hl<T, U: Target<T>, V: Source<T>>(
        &mut self,
        mem: &mut Memory,
        target: U,
        source: V,
    )
        requires
            old(mem).wf(),
        ensures
            final(mem).wf(),
            (*final(self), final(mem)@) == load_step_hl_effect(target, source, true, *old(self), old(mem)@),
    {
        self.load(mem, target, source);
        let hl = self.reg.hl();
        self.reg.set_hl(hl.wrapping_add(1));
    }

    /// HALT: the CPU waits for an interrupt.
    pub fn halt(&mut self)
        ensures
            *final(self) == (CPU { mode: CpuMode::Halt, ..*old(self) }),
    {
        self.mode = CpuMode::Halt;
    }

    /// DI
    pub fn disable_interrupts(&mut self)
        ensures
            *final(self) == (CPU { ime: false, ..*old(self) }),
    {
        self.ime = false;
    }

    /// EI
    pub fn enable_interrupts(&mut self)
        ensures
            *final(self) == (CPU { ime: true, ..*old(self) }),
    {
        self.ime = true;
    }

    /// Decrements SP by two and writes `value` there, two cycles.
    fn push_word(&mut self, mem: &mut Memory, value: u16)
        requires
            old(mem).wf(),
        ensures
            final(mem).wf(),
            ({
                let sp = wrap16(old(self).reg.sp - 2);
                &&& final(mem)@ == mem_write_word(old(mem)@, sp, value)
                &&& *final(self) == old(self).with_sp(sp).charged(2)
            }),
    {
        self.reg.sp = self.reg.sp.wrapping_sub(2);
        let sp = self.reg.sp;
        self.write_word(mem, sp, value);
    }

    /// PUSH: two writes and one internal cycle.
    pub fn push<S: Source<u16>>(&mut self, mem: &mut Memory, source: S)
        requires
            old(mem).wf(),
        ensures
            final(mem).wf(),
            (*final(self), final(mem)@) == push_effect(source, *old(self), old(mem)@),
    {
        let value = source.read(self, mem);
        self.push_word(mem, value);
        self.charge(1);
    }

    /// POP: two reads, then SP is incremented by two.
    pub fn pop<T: Target<u16>>(&mut self, mem: &mut Memory, target: T)
        requires
            old(mem).wf(),
        ensures
            final(mem).wf(),
            (*final(self), final(mem)@) == pop_effect(target, *old(self), old(mem)@),
    {
        let sp = self.reg.sp;
        let value = self.read_word(mem, sp);
        target.write(self, mem, value);
        self.reg.sp = self.reg.sp.wrapping_add(2);
    }

    /// CALL: when the condition holds, PC is pushed, one internal cycle, and
    /// PC takes the operand.
    pub fn call<S: Source<u16>>(&mut self, mem: &mut Memory, word: S, cond: Condition)
        requires
            old(mem).wf(),
        ensures
            final(mem).wf(),
            (*final(self), final(mem)@) == call_effect(word, cond, *old(self), old(mem)@),
    {
        let address = word.read(self, mem);
        if cond.is_satisfied(self) {
            let pc = self.reg.pc;
            self.push_word(mem, pc);
            self.charge(1);
            self.reg.pc = address;
        }
    }

    /// RST: pushes PC and jumps to a fixed address in page zero.
    pub fn restart(&mut self, mem: &mut Memory, address: u8)
        requires
            old(mem).wf(),
        ensures
            final(mem).wf(),
            (*final(self), final(mem)@) == restart_effect(address, *old(self), old(mem)@),
    {
        let pc = self.reg.pc;
        self.push_word(mem, pc);
        self.charge(1);
        self.reg.pc = address as u16;
    }

    /// RET: a conditional return spends one cycle on the test; when taken,
    /// PC is popped and one more cycle is spent.
    pub fn ret(&mut self, mem: &Memory, cond: Condition)
        requires
            mem.wf(),
        ensures
            *final(self) == return_effect(cond, *old(self), mem@),
    {
        if cond != Condition::Unconditional {
            self.charge(1);
        }
        if cond.is_satisfied(self) {
            let sp = self.reg.sp;
            let pc = self.read_word(mem, sp);
            self.reg.pc = pc;
            self.reg.sp = self.reg.sp.wrapping_add(2);
            self.charge(1);
        }
    }

    /// RETI: an unconditional return that sets IME.
    pub fn return_and_enable_interrupts(&mut self, mem: &Memory)
        requires
            mem.wf(),
        ensures
            *final(self) == (CPU { ime: true, ..return_effect(Condition::Unconditional, *old(self), mem@) }),
    {
        self.ret(mem, Condition::Unconditional);
        self.enable_interrupts();
    }

    /// CPL: A is inverted; N and H set, Z and C kept.
    pub fn complement_a(&mut self)
        ensures
            *final(self) == complement_effect(*old(self)),
    {
        let z = self.reg.z_flag();
        let c = self.reg.c_flag();
        self.reg.a = 255 - self.reg.a;
        self.reg.f = make_flags(z, true, true, c);
    }

    /// RLC: rotates left; C takes bit 7.
    pub fn rotate_left<D: Source<u8> + Target<u8>>(&mut self, mem: &mut Memory, data: D)
        requires
            old(mem).wf(),
        ensures
            final(mem).wf(),
            (*final(self), final(mem)@) == shift_effect(0, data, *old(self), old(mem)@),
    {
        let carry = self.reg.c_flag();
        let v = data.read(self, mem);
        let r = (v % 128) * 2 + v / 128;
        data.write(self, mem, r);
        self.reg.f = make_flags(r == 0, false, false, v >= 128);
    }

    /// RRC: rotates right; C takes bit 0.
    pub fn rotate_right<D: Source<u8> + Target<u8>>(&mut self, mem: &mut Memory, data: D)
        requires
            old(mem).wf(),
        ensures
            final(mem).wf(),
            (*final(self), final(mem)@) == shift_effect(1, data, *old(self), old(mem)@),
    {
        let carry = self.reg.c_flag();
        let v = data.read(self, mem);
        let r = v / 2 + (v % 2) * 128;
        data.write(self, mem, r);
        self.reg.f = make_flags(r == 0, false, false, v % 2 == 1);
    }

    /// RL: rotates left through the carry flag.
    pub fn rotate_left_through_carry<D: Source<u8> + Target<u8>>(&mut self, mem: &mut Memory, data: D)
        requires
            old(mem).wf(),
        ensures
            final(mem).wf(),
            (*final(self), final(mem)@) == shift_effect(2, data, *old(self), old(mem)@),
    {
        let carry = self.reg.c_flag();
        let v = data.read(self, mem);
        let r = (v % 128) * 2 + if carry { 1 } else { 0 };
        data.write(self, mem, r);
        self.reg.f = make_flags(r == 0, false, false, v >= 128);
    }

    /// RR: rotates right through the carry flag.
    pub fn rotate_right_through_carry<D: Source<u8> + Target<u8>>(&mut self, mem: &mut Memory, data: D)
        requires
            old(mem).wf(),
        ensures
            final(mem).wf(),
            (*final(self), final(mem)@) == shift_effect(3, data, *old(self), old(mem)@),
    {
        let carry = self.reg.c_flag();
        let v = data.read(self, mem);
        let r = v / 2 + if carry { 128 } else { 0 };
        data.write(self, mem, r);
        self.reg.f = make_flags(r == 0, false, false, v % 2 == 1);
    }

    /// SLA: shifts left; C takes bit 7.
    pub fn shift_left<D: Source<u8> + Target<u8>>(&mut self, mem: &mut Memory, data: D)
        requires
            old(mem).wf(),
        ensures
            final(mem).wf(),
            (*final(self), final(mem)@) == shift_effect(4, data, *old(self), old(mem)@),
    {
        let carry = self.reg.c_flag();
        let v = data.read(self, mem);
        let r = (v % 128) * 2;
        data.write(self, mem, r);
        self.reg.f = make_flags(r == 0, false, false, v >= 128);
    }

    /// SRA: shifts right keeping bit 7; C takes bit 0.
    pub fn shift_right_keep_msb<D: Source<u8> + Target<u8>>(&mut self, mem: &mut Memory, data: D)
        requires
            old(mem).wf(),
        ensures
            final(mem).wf(),
            (*final(self), final(mem)@) == shift_effect(5, data, *old(self), old(mem)@),
    {
        let carry = self.reg.c_flag();
        let v = data.read(self, mem);
        let r = v / 2 + if v >= 128 { 128 } else { 0 };
        data.write(self, mem, r);
        self.reg.f = make_flags(r == 0, false, false, v % 2 == 1);
    }

    /// SRL: shifts right; C takes bit 0.
    pub fn shift_right<D: Source<u8> + Target<u8>>(&mut self, mem: &mut Memory, data: D)
        requires
            old(mem).wf(),
        ensures
            final(mem).wf(),
            (*final(self), final(mem)@) == shift_effect(7, data, *old(self), old(mem)@),
    {
        let carry = self.reg.c_flag();
        let v = data.read(self, mem);
        let r = v / 2;
        data.write(self, mem, r);
        self.reg.f = make_flags(r == 0, false, false, v % 2 == 1);
    }

    /// SWAP: exchanges the nibbles; Z from the result, the other flags cleared.
    pub fn swap<D: Source<u8> + Target<u8>>(&mut self, mem: &mut Memory, data: D)
        requires
            old(mem).wf(),
        ensures
            final(mem).wf(),
            (*final(self), final(mem)@) == shift_effect(6, data, *old(self), old(mem)@),
    {
        let carry = self.reg.c_flag();
        let v = data.read(self, mem);
        let r = (v % 16) * 16 + v / 16;
        data.write(self, mem, r);
        self.reg.f = make_flags(r == 0, false, false, false);
    }

    /// BIT: Z is set when the bit is clear; N cleared, H set, C kept.
    pub fn test_bit<S: Source<u8>>(&mut self, mem: &Memory, target_bit: u8, data: S)
        requires
            mem.wf(),
            target_bit < 8,
        ensures
            *final(self) == test_bit_effect(target_bit, data, *old(self), mem@),
    {
        let carry = self.reg.c_flag();
        let v = data.read(self, mem);
        self.reg.f = make_flags(!((v >> target_bit) & 1 == 1), false, true, carry);
    }

    /// RES: clears one bit of the operand.
    pub fn reset_bit<D: Source<u8> + Target<u8>>(&mut self, mem: &mut Memory, target_bit: u8, data: D)
        requires
            old(mem).wf(),
            target_bit < 8,
        ensures
            final(mem).wf(),
            (*final(self), final(mem)@) == write_bit_effect(target_bit, false, data, *old(self), old(mem)@),
    {
        let v = data.read(self, mem);
        data.write(self, mem, v & !(1u8 << target_bit));
    }

    /// SET: sets one bit of the operand.
    pub fn set_bit<D: Source<u8> + Target<u8>>(&mut self, mem: &mut Memory, target_bit: u8, data: D)
        requires
            old(mem).wf(),
            target_bit < 8,
        ensures
            final(mem).wf(),
            (*final(self), final(mem)@) == write_bit_effect(target_bit, true, data, *old(self), old(mem)@),
    {
        let v = data.read(self, mem);
        data.write(self, mem, v | (1u8 << target_bit));
    }

    /// ADD HL,rr: N cleared, H on carry out of bit 11, C on carry out of
    /// bit 15, Z kept; one internal cycle.
    pub fn add_word<T: Source<u16> + Target<u16>, S: Source<u16>>(
        &mut self,
        mem: &mut Memory,
        target: T,
        source: S,
    )
        requires
            old(mem).wf(),
        ensures
            final(mem).wf(),
            (*final(self), final(mem)@) == add_word_effect(target, source, *old(self), old(mem)@),
    {
        let z = self.reg.z_flag();
        let v = source.read(self, mem);
        let t = target.read(self, mem);
        let sum = t.wrapping_add(v);
        target.write(self, mem, sum);
        self.charge(1);
        self.reg.f = make_flags(z, false, t % 4096 + v % 4096 > 4095, t as u32 + v as u32 > 65535);
    }
}

/// Whether a word at `a` is stored and read back as it is: both bytes lie
/// in video RAM, external RAM, work RAM or its echo, or high RAM.
pub open spec fn plain_word_address(a: u16) -> bool {
    (0x8000 <= a && a + 1 < 0xFE00) || (0xFF80 <= a && a + 1 < 0xFFFF)
}

/// PUSH then POP of the same register pair restores every register,
/// SP included, when the stack slot is ordinary RAM; beyond their opcode
/// fetches, PUSH takes three machine cycles and POP two.
pub proof fn lemma_push_pop(reg: WordRegister, cpu: CPU, mem: MemView)
    requires
        mem.bytes.len() == crate::memory::MEMORY_SIZE,
        mem.written.len() == crate::memory::IO_SIZE,
        reg == WordRegister::BC || reg == WordRegister::DE || reg == WordRegister::HL,
        plain_word_address(wrap16(cpu.reg.sp - 2)),
    ensures
        ({
            let p = push_effect(reg, cpu, mem);
            let q = pop_effect(reg, p.0, p.1);
            &&& q.0.reg == cpu.reg
            &&& q.0.cycles_until_done == crate::cpu::add_cycles(
                crate::cpu::add_cycles(cpu.cycles_until_done, 3),
                2,
            )
        }),
{
    let v = cpu.reg.word_spec(reg);
    let sp = wrap16(cpu.reg.sp - 2);
    let p = push_effect(reg, cpu, mem);
    let b = p.1.bytes;
    assert(crate::memory::next_address(sp) == sp + 1);
    assert(read_spec(b, sp) == (v % 256) as u8);
    assert(read_spec(b, (sp + 1) as u16) == (v / 256) as u8);
    assert(read_word_spec(b, sp) == v);
    assert(p.0.reg.sp == sp);
    assert(wrap16(sp + 2) == cpu.reg.sp);
    let (hi, lo) = if reg == WordRegister::BC {
        (cpu.reg.b, cpu.reg.c)
    } else if reg == WordRegister::DE {
        (cpu.reg.d, cpu.reg.e)
    } else {
        (cpu.reg.h, cpu.reg.l)
    };
    assert(v == hi * 256 + lo);
    assert((v / 256) as u8 == hi && (v % 256) as u8 == lo);
    let q = pop_effect(reg, p.0, p.1);
    assert(q.0.reg =~= cpu.reg);
}

} // verus!
