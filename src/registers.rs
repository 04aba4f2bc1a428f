use vstd::prelude::*;

verus! {

/// Zero flag (bit 7 of F).
pub const FLAG_Z: u8 = 0x80;
/// Subtract flag (bit 6 of F).
pub const FLAG_N: u8 = 0x40;
/// Half-carry flag (bit 5 of F).
pub const FLAG_H: u8 = 0x20;
/// Carry flag (bit 4 of F).
pub const FLAG_C: u8 = 0x10;

/// The 16-bit value whose high byte is `hi` and low byte is `lo`.
pub open spec fn pair(hi: u8, lo: u8) -> u16 {
    (hi as int * 256 + lo as int) as u16
}

/// A flags byte built from the four flag bits; bits 3 to 0 are zero.
pub open spec fn flags_byte(z: bool, n: bool, h: bool, c: bool) -> u8 {
    (if z { 0x80u8 } else { 0u8 }) | (if n { 0x40u8 } else { 0u8 }) | (if h { 0x20u8 } else { 0u8 })
        | (if c { 0x10u8 } else { 0u8 })
}

/// Each flag bit of a built flags byte reads back as it was given.
pub proof fn lemma_flags_byte(z: bool, n: bool, h: bool, c: bool)
    ensures
        bit_set(flags_byte(z, n, h, c), FLAG_Z) == z,
        bit_set(flags_byte(z, n, h, c), FLAG_N) == n,
        bit_set(flags_byte(z, n, h, c), FLAG_H) == h,
        bit_set(flags_byte(z, n, h, c), FLAG_C) == c,
        flags_byte(z, n, h, c) & 0x0F == 0,
{
    let f = flags_byte(z, n, h, c);
    assert(f == (if z { 0x80u8 } else { 0u8 }) | (if n { 0x40u8 } else { 0u8 }) | (if h { 0x20u8 } else { 0u8 })
        | (if c { 0x10u8 } else { 0u8 }));
    assert((f & 0x80 != 0) == z && (f & 0x40 != 0) == n && (f & 0x20 != 0) == h && (f & 0x10 != 0) == c
        && f & 0x0F == 0) by (bit_vector)
        requires
            f == (if z { 0x80u8 } else { 0u8 }) | (if n { 0x40u8 } else { 0u8 }) | (if h { 0x20u8 } else { 0u8 })
                | (if c { 0x10u8 } else { 0u8 }),
    ;
}

/// Builds a flags byte from the four flag bits.
pub fn make_flags(z: bool, n: bool, h: bool, c: bool) -> (r: u8)
    ensures
        r == flags_byte(z, n, h, c),
{
    (if z { 0x80u8 } else { 0u8 }) | (if n { 0x40u8 } else { 0u8 }) | (if h { 0x20u8 } else { 0u8 })
        | (if c { 0x10u8 } else { 0u8 })
}

pub open spec fn bit_set(f: u8, mask: u8) -> bool {
    f & mask != 0
}

/// One of the seven 8-bit registers.
#[derive(Clone, Copy, Debug, PartialEq, Eq, Structural)]
pub enum ByteRegister {
    A,
    B,
    C,
    D,
    E,
    H,
    L,
}

/// A 16-bit register or register pair.
#[derive(Clone, Copy, Debug, PartialEq, Eq, Structural)]
pub enum WordRegister {
    BC,
    DE,
    HL,
    SP,
    AF,
    PC,
}

/// The register file. The low nibble of `f` always reads as zero.
#[derive(Clone, Copy, Debug, PartialEq, Eq, Structural)]
pub struct Registers {
    pub a: u8,
    pub f: u8,
    pub b: u8,
    pub c: u8,
    pub d: u8,
    pub e: u8,
    pub h: u8,
    pub l: u8,
    pub sp: u16,
    pub pc: u16,
}

impl Registers {
    pub open spec fn z(&self) -> bool {
        bit_set(self.f, FLAG_Z)
    }

    pub open spec fn n(&self) -> bool {
        bit_set(self.f, FLAG_N)
    }

    pub open spec fn hc(&self) -> bool {
        bit_set(self.f, FLAG_H)
    }

    pub open spec fn cy(&self) -> bool {
        bit_set(self.f, FLAG_C)
    }

    pub open spec fn byte_spec(&self, reg: ByteRegister) -> u8 {
        match reg {
            ByteRegister::A => self.a,
            ByteRegister::B => self.b,
            ByteRegister::C => self.c,
            ByteRegister::D => self.d,
            ByteRegister::E => self.e,
            ByteRegister::H => self.h,
            ByteRegister::L => self.l,
        }
    }

    pub open spec fn with_byte(self, reg: ByteRegister, v: u8) -> Registers {
        match reg {
            ByteRegister::A => Registers { a: v, ..self },
            ByteRegister::B => Registers { b: v, ..self },
            ByteRegister::C => Registers { c: v, ..self },
            ByteRegister::D => Registers { d: v, ..self },
            ByteRegister::E => Registers { e: v, ..self },
            ByteRegister::H => Registers { h: v, ..self },
            ByteRegister::L => Registers { l: v, ..self },
        }
    }

    pub open spec fn word_spec(&self, reg: WordRegister) -> u16 {
        match reg {
            WordRegister::BC => pair(self.b, self.c),
            WordRegister::DE => pair(self.d, self.e),
            WordRegister::HL => pair(self.h, self.l),
            WordRegister::SP => self.sp,
            WordRegister::AF => pair(self.a, self.f),
            WordRegister::PC => self.pc,
        }
    }

    pub open spec fn with_word(self, reg: WordRegister, v: u16) -> Registers {
        let hi = (v / 256) as u8;
        let lo = (v % 256) as u8;
        match reg {
            WordRegister::BC => Registers { b: hi, c: lo, ..self },
            WordRegister::DE => Registers { d: hi, e: lo, ..self },
            WordRegister::HL => Registers { h: hi, l: lo, ..self },
            WordRegister::SP => Registers { sp: v, ..self },
            WordRegister::AF => Registers { a: hi, f: (lo & 0xF0), ..self },
            WordRegister::PC => Registers { pc: v, ..self },
        }
    }

    /// The flag bits are exactly the high nibble of F.
    pub open spec fn wf(&self) -> bool {
        self.f & 0x0F == 0
    }

    pub open spec fn new_spec() -> Registers {
        Registers {
            a: 0x01,
            f: 0xB0,
            b: 0x00,
            c: 0x13,
            d: 0x00,
            e: 0xD8,
            h: 0x01,
            l: 0x4D,
            sp: 0xFFFE,
            pc: 0x0100,
        }
    }

    /// The register state right after the boot sequence.
    pub fn new() -> (r: Self)
        ensures
            r == Registers::new_spec(),
            r.wf(),
    {
        let r = Registers {
            a: 0x01,
            f: 0xB0,
            b: 0x00,
            c: 0x13,
            d: 0x00,
            e: 0xD8,
            h: 0x01,
            l: 0x4D,
            sp: 0xFFFE,
            pc: 0x0100,
        };
        assert(0xB0u8 & 0x0F == 0) by (bit_vector);
        r
    }

    pub fn set_bc(&mut self, value: u16)
        ensures
            *final(self) == old(self).with_word(WordRegister::BC, value),
    {
        self.c = (value % 256) as u8;
        self.b = (value / 256) as u8;
    }

    pub fn bc(&self) -> (r: u16)
        ensures
            r == pair(self.b, self.c),
    {
        self.b as u16 * 256 + self.c as u16
    }

    pub fn set_de(&mut self, value: u16)
        ensures
            *final(self) == old(self).with_word(WordRegister::DE, value),
    {
        self.e = (value % 256) as u8;
        self.d = (value / 256) as u8;
    }

    pub fn de(&self) -> (r: u16)
        ensures
            r == pair(self.d, self.e),
    {
        self.d as u16 * 256 + self.e as u16
    }

    pub fn set_hl(&mut self, value: u16)
        ensures
            *final(self) == old(self).with_word(WordRegister::HL, value),
    {
        self.l = (value % 256) as u8;
        self.h = (value / 256) as u8;
    }

    pub fn hl(&self) -> (r: u16)
        ensures
            r == pair(self.h, self.l),
    {
        self.h as u16 * 256 + self.l as u16
    }

    /// The flags byte, with bits 3 to 0 cleared.
    pub fn flags(&self) -> (r: u8)
        ensures
            r == self.f & 0xF0,
    {
        self.f & 0xF0
    }

    /// Stores the flag bits of `flags`; bits 3 to 0 are dropped.
    pub fn set_flags(&mut self, flags: u8)
        ensures
            *final(self) == (Registers { f: flags & 0xF0, ..*old(self) }),
            final(self).wf(),
    {
        self.f = flags & 0xF0;
        assert(flags & 0xF0 & 0x0F == 0) by (bit_vector);
    }

    pub fn z_flag(&self) -> (r: bool)
        ensures
            r == self.z(),
    {
        self.f & FLAG_Z != 0
    }

    pub fn n_flag(&self) -> (r: bool)
        ensures
            r == self.n(),
    {
        self.f & FLAG_N != 0
    }

    pub fn h_flag(&self) -> (r: bool)
        ensures
            r == self.hc(),
    {
        self.f & FLAG_H != 0
    }

    pub fn c_flag(&self) -> (r: bool)
        ensures
            r == self.cy(),
    {
        self.f & FLAG_C != 0
    }

    pub fn byte_register(&self, reg: &ByteRegister) -> (r: u8)
        ensures
            r == self.byte_spec(*reg),
    {
        match reg {
            ByteRegister::A => self.a,
            ByteRegister::B => self.b,
            ByteRegister::C => self.c,
            ByteRegister::D => self.d,
            ByteRegister::E => self.e,
            ByteRegister::H => self.h,
            ByteRegister::L => self.l,
        }
    }

    pub fn set_byte_register(&mut self, reg: &ByteRegister, value: u8)
        ensures
            *final(self) == old(self).with_byte(*reg, value),
    {
        match reg {
            ByteRegister::A => self.a = value,
            ByteRegister::B => self.b = value,
            ByteRegister::C => self.c = value,
            ByteRegister::D => self.d = value,
            ByteRegister::E => self.e = value,
            ByteRegister::H => self.h = value,
            ByteRegister::L => self.l = value,
        }
    }

    pub fn word_register(&self, reg: &WordRegister) -> (r: u16)
        ensures
            r == self.word_spec(*reg),
    {
        match reg {
            WordRegister::BC => self.bc(),
            WordRegister::DE => self.de(),
            WordRegister::HL => self.hl(),
            WordRegister::SP => self.sp,
            WordRegister::AF => self.a as u16 * 256 + self.f as u16,
            WordRegister::PC => self.pc,
        }
    }

    pub fn set_word_register(&mut self, reg: &WordRegister, value: u16)
        ensures
            *final(self) == old(self).with_word(*reg, value),
            old(self).wf() ==> final(self).wf(),
    {
        match reg {
            WordRegister::BC => self.set_bc(value),
            WordRegister::DE => self.set_de(value),
            WordRegister::HL => self.set_hl(value),
            WordRegister::SP => self.sp = value,
            WordRegister::AF => {
                self.a = (value / 256) as u8;
                let lo = (value % 256) as u8;
                self.f = lo & 0xF0;
                assert(lo & 0xF0 & 0x0F == 0) by (bit_vector);
            },
            WordRegister::PC => self.pc = value,
        }
    }
}

} // verus!
