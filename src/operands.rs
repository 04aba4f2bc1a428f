use vstd::prelude::*;
use crate::cpu::{CPU, add_cycles, mem_write, mem_write_word};
use crate::memory::{Memory, MemView, read_spec};
use crate::registers::{ByteRegister, WordRegister, Registers};

verus! {

/// An operand that an instruction reads.
pub trait Source<T> {
    /// The value that a read yields in this state.
    spec fn value(&self, cpu: CPU, mem: MemView) -> T;

    /// The machine cycles that a read costs.
    spec fn read_cycles(&self) -> u32;

    fn read(&self, cpu: &mut CPU, mem: &Memory) -> (r: T)
        requires
            mem.wf(),
        ensures
            r == self.value(*old(cpu), mem@),
            *final(cpu) == old(cpu).charged(self.read_cycles()),
    ;
}

/// An operand that an instruction writes.
pub trait Target<T> {
    /// The CPU and bus after `v` is written in this state.
    spec fn stored(&self, cpu: CPU, mem: MemView, v: T) -> (CPU, MemView);

    /// The machine cycles that a write costs.
    spec fn write_cycles(&self) -> u32;

    /// A write charges `write_cycles` and leaves the interrupt and run state.
    proof fn lemma_write_cycles(&self)
        ensures
            forall|cpu: CPU, mem: MemView, v: T|
                {
                    &&& (#[trigger] self.stored(cpu, mem, v)).0.cycles_until_done
                        == add_cycles(cpu.cycles_until_done, self.write_cycles())
                    &&& self.stored(cpu, mem, v).0.ime == cpu.ime
                    &&& self.stored(cpu, mem, v).0.mode == cpu.mode
                },
    ;

    fn write(&self, cpu: &mut CPU, mem: &mut Memory, data: T)
        requires
            old(mem).wf(),
        ensures
            final(mem).wf(),
            (*final(cpu), final(mem)@) == self.stored(*old(cpu), old(mem)@, data),
    ;
}

/// A literal that follows the opcode; its fetch is charged when it is read
/// from the instruction stream.
#[derive(Debug)]
pub struct Immediate<T>(pub T);

impl Source<u8> for Immediate<u8> {
    open spec fn value(&self, cpu: CPU, mem: MemView) -> u8 {
        self.0
    }

    open spec fn read_cycles(&self) -> u32 {
        0
    }

    fn read(&self, cpu: &mut CPU, mem: &Memory) -> (r: u8) {
        self.0
    }
}

impl Source<u16> for Immediate<u16> {
    open spec fn value(&self, cpu: CPU, mem: MemView) -> u16 {
        self.0
    }

    open spec fn read_cycles(&self) -> u32 {
        0
    }

    fn read(&self, cpu: &mut CPU, mem: &Memory) -> (r: u16) {
        self.0
    }
}

impl Source<u8> for ByteRegister {
    open spec fn value(&self, cpu: CPU, mem: MemView) -> u8 {
        cpu.reg.byte_spec(*self)
    }

    open spec fn read_cycles(&self) -> u32 {
        0
    }

    fn read(&self, cpu: &mut CPU, mem: &Memory) -> (r: u8) {
        cpu.reg.byte_register(self)
    }
}

impl Target<u8> for ByteRegister {
    open spec fn stored(&self, cpu: CPU, mem: MemView, v: u8) -> (CPU, MemView) {
        (cpu.with_reg(cpu.reg.with_byte(*self, v)), mem)
    }

    open spec fn write_cycles(&self) -> u32 {
        0
    }

    proof fn lemma_write_cycles(&self) {
    }

    fn write(&self, cpu: &mut CPU, mem: &mut Memory, data: u8) {
        cpu.reg.set_byte_register(self, data);
    }
}

impl Source<u16> for WordRegister {
    open spec fn value(&self, cpu: CPU, mem: MemView) -> u16 {
        cpu.reg.word_spec(*self)
    }

    open spec fn read_cycles(&self) -> u32 {
        0
    }

    fn read(&self, cpu: &mut CPU, mem: &Memory) -> (r: u16) {
        cpu.reg.word_register(self)
    }
}

impl Target<u16> for WordRegister {
    open spec fn stored(&self, cpu: CPU, mem: MemView, v: u16) -> (CPU, MemView) {
        (cpu.with_reg(cpu.reg.with_word(*self, v)), mem)
    }

    open spec fn write_cycles(&self) -> u32 {
        0
    }

    proof fn lemma_write_cycles(&self) {
    }

    fn write(&self, cpu: &mut CPU, mem: &mut Memory, data: u16) {
        cpu.reg.set_word_register(self, data);
    }
}

/// Memory at the address that a register pair holds; `HighC` is `0xFF00 + C`.
#[derive(Clone, Copy, Debug, PartialEq, Eq, Structural)]
pub enum Indirect {
    BC,
    DE,
    HL,
    HighC,
}

impl Indirect {
    pub open spec fn address_spec(&self, reg: Registers) -> u16 {
        match self {
            Indirect::BC => reg.word_spec(WordRegister::BC),
            Indirect::DE => reg.word_spec(WordRegister::DE),
            Indirect::HL => reg.word_spec(WordRegister::HL),
            Indirect::HighC => (0xFF00 + reg.c) as u16,
        }
    }

    pub fn address(&self, cpu: &CPU) -> (r: u16)
        ensures
            r == self.address_spec(cpu.reg),
    {
        match self {
            Indirect::BC => cpu.reg.word_register(&WordRegister::BC),
            Indirect::DE => cpu.reg.word_register(&WordRegister::DE),
            Indirect::HL => cpu.reg.word_register(&WordRegister::HL),
            Indirect::HighC => 0xFF00 + cpu.reg.byte_register(&ByteRegister::C) as u16,
        }
    }
}

impl Source<u8> for Indirect {
    open spec fn value(&self, cpu: CPU, mem: MemView) -> u8 {
        read_spec(mem.bytes, self.address_spec(cpu.reg))
    }

    open spec fn read_cycles(&self) -> u32 {
        1
    }

    fn read(&self, cpu: &mut CPU, mem: &Memory) -> (r: u8) {
        let address = self.address(cpu);
        cpu.read_byte(mem, address)
    }
}

impl Target<u8> for Indirect {
    open spec fn stored(&self, cpu: CPU, mem: MemView, v: u8) -> (CPU, MemView) {
        (cpu.charged(1), mem_write(mem, self.address_spec(cpu.reg), v))
    }

    open spec fn write_cycles(&self) -> u32 {
        1
    }

    proof fn lemma_write_cycles(&self) {
    }

    fn write(&self, cpu: &mut CPU, mem: &mut Memory, data: u8) {
        let address = self.address(cpu);
        cpu.write_byte(mem, address, data);
    }
}

/// Memory at `0xFF00` plus an 8-bit literal.
#[derive(Clone, Copy, Debug, PartialEq, Eq, Structural)]
pub struct IndirectHighImmediate(pub u8);

/// Memory at a 16-bit literal address.
#[derive(Clone, Copy, Debug, PartialEq, Eq, Structural)]
pub struct IndirectImmediate(pub u16);

impl IndirectHighImmediate {
    pub open spec fn address_spec(&self) -> u16 {
        (0xFF00 + self.0) as u16
    }

    pub fn address(&self) -> (r: u16)
        ensures
            r == self.address_spec(),
    {
        0xFF00 + self.0 as u16
    }
}

impl IndirectImmediate {
    pub open spec fn address_spec(&self) -> u16 {
        self.0
    }

    pub fn address(&self) -> (r: u16)
        ensures
            r == self.address_spec(),
    {
        self.0
    }
}

impl Source<u8> for IndirectHighImmediate {
    open spec fn value(&self, cpu: CPU, mem: MemView) -> u8 {
        read_spec(mem.bytes, self.address_spec())
    }

    open spec fn read_cycles(&self) -> u32 {
        1
    }

    fn read(&self, cpu: &mut CPU, mem: &Memory) -> (r: u8) {
        let address = self.address();
        cpu.read_byte(mem, address)
    }
}

impl Target<u8> for IndirectHighImmediate {
    open spec fn stored(&self, cpu: CPU, mem: MemView, v: u8) -> (CPU, MemView) {
        (cpu.charged(1), mem_write(mem, self.address_spec(), v))
    }

    open spec fn write_cycles(&self) -> u32 {
        1
    }

    proof fn lemma_write_cycles(&self) {
    }

    fn write(&self, cpu: &mut CPU, mem: &mut Memory, data: u8) {
        let address = self.address();
        cpu.write_byte(mem, address, data);
    }
}

impl Source<u8> for IndirectImmediate {
    open spec fn value(&self, cpu: CPU, mem: MemView) -> u8 {
        read_spec(mem.bytes, self.address_spec())
    }

    open spec fn read_cycles(&self) -> u32 {
        1
    }

    fn read(&self, cpu: &mut CPU, mem: &Memory) -> (r: u8) {
        let address = self.address();
        cpu.read_byte(mem, address)
    }
}

impl Target<u8> for IndirectImmediate {
    open spec fn stored(&self, cpu: CPU, mem: MemView, v: u8) -> (CPU, MemView) {
        (cpu.charged(1), mem_write(mem, self.address_spec(), v))
    }

    open spec fn write_cycles(&self) -> u32 {
        1
    }

    proof fn lemma_write_cycles(&self) {
    }

    fn write(&self, cpu: &mut CPU, mem: &mut Memory, data: u8) {
        let address = self.address();
        cpu.write_byte(mem, address, data);
    }
}

impl Target<u16> for IndirectImmediate {
    open spec fn stored(&self, cpu: CPU, mem: MemView, v: u16) -> (CPU, MemView) {
        (cpu.charged(2), mem_write_word(mem, self.address_spec(), v))
    }

    open spec fn write_cycles(&self) -> u32 {
        2
    }

    proof fn lemma_write_cycles(&self) {
    }

    fn write(&self, cpu: &mut CPU, mem: &mut Memory, data: u16) {
        let address = self.address();
        cpu.write_word(mem, address, data);
    }
}

} // verus!
