use vstd::prelude::*;

verus! {

/// Addresses of the memory-mapped I/O registers.
pub struct IORegister;

impl IORegister {
    pub const P1: u16 = 0xFF00;
    pub const SC: u16 = 0xFF02;
    pub const DIV: u16 = 0xFF04;
    pub const TIMA: u16 = 0xFF05;
    pub const TMA: u16 = 0xFF06;
    pub const TAC: u16 = 0xFF07;
    pub const IF: u16 = 0xFF0F;
    pub const NR10: u16 = 0xFF10;
    pub const NR11: u16 = 0xFF11;
    pub const NR12: u16 = 0xFF12;
    pub const NR13: u16 = 0xFF13;
    pub const NR14: u16 = 0xFF14;
    pub const NR21: u16 = 0xFF16;
    pub const NR22: u16 = 0xFF17;
    pub const NR23: u16 = 0xFF18;
    pub const NR24: u16 = 0xFF19;
    pub const NR30: u16 = 0xFF1A;
    pub const NR31: u16 = 0xFF1B;
    pub const NR32: u16 = 0xFF1C;
    pub const NR33: u16 = 0xFF1D;
    pub const NR34: u16 = 0xFF1E;
    pub const NR41: u16 = 0xFF20;
    pub const NR42: u16 = 0xFF21;
    pub const NR43: u16 = 0xFF22;
    pub const NR44: u16 = 0xFF23;
    pub const NR50: u16 = 0xFF24;
    pub const NR51: u16 = 0xFF25;
    pub const NR52: u16 = 0xFF26;
    pub const LCDC: u16 = 0xFF40;
    pub const STAT: u16 = 0xFF41;
    pub const SCY: u16 = 0xFF42;
    pub const SCX: u16 = 0xFF43;
    pub const LY: u16 = 0xFF44;
    pub const LYC: u16 = 0xFF45;
    pub const DMA: u16 = 0xFF46;
    pub const BGP: u16 = 0xFF47;
    pub const OBP0: u16 = 0xFF48;
    pub const OBP1: u16 = 0xFF49;
    pub const WY: u16 = 0xFF4A;
    pub const WX: u16 = 0xFF4B;
    pub const IE: u16 = 0xFFFF;
}

/// Size of the address space.
pub const MEMORY_SIZE: usize = 0x10000;
/// First address of object attribute memory.
pub const OAM_START: u16 = 0xFE00;
/// Number of bytes that a DMA transfer copies to object attribute memory.
pub const OAM_SIZE: u16 = 160;
/// Number of I/O addresses that carry a write-watch flag.
pub const IO_SIZE: usize = 0x100;

/// What the bus holds: the 64 KiB of bytes and, for each address `0xFF00 + n`,
/// whether it was written since the flag was last cleared.
pub struct MemView {
    pub bytes: Seq<u8>,
    pub written: Seq<bool>,
}

/// The address after `a`, wrapping at the top of the address space.
pub open spec fn next_address(a: u16) -> u16 {
    if a == 0xFFFF {
        0
    } else {
        (a + 1) as u16
    }
}

/// The byte that a read at `a` returns.
pub open spec fn read_spec(bytes: Seq<u8>, a: u16) -> u8 {
    if a == IORegister::P1 {
        0xFF
    } else {
        bytes[a as int]
    }
}

/// The little-endian word that a read at `a` returns.
pub open spec fn read_word_spec(bytes: Seq<u8>, a: u16) -> u16 {
    (read_spec(bytes, next_address(a)) as int * 256 + read_spec(bytes, a) as int) as u16
}

/// The bytes after a DMA transfer from page `source`: the 160 bytes at
/// `source * 0x100` are copied to object attribute memory.
pub open spec fn dma_spec(bytes: Seq<u8>, source: u8) -> Seq<u8> {
    Seq::new(
        bytes.len(),
        |i: int|
            if OAM_START <= i < OAM_START + OAM_SIZE {
                bytes[source as int * 256 + (i - OAM_START)]
            } else {
                bytes[i]
            },
    )
}

/// The bytes after the bus stores `v` at `a`, by the policy of the region.
pub open spec fn write_spec(bytes: Seq<u8>, a: u16, v: u8) -> Seq<u8> {
    if a < 0x8000 {
        bytes
    } else if 0xC000 <= a <= 0xDDFF {
        bytes.update(a as int, v).update(a + 0x2000, v)
    } else if 0xE000 <= a <= 0xFDFF {
        bytes.update(a as int, v).update(a - 0x2000, v)
    } else if a == IORegister::DIV {
        bytes.update(a as int, 0)
    } else if a == IORegister::DMA {
        dma_spec(bytes, v)
    } else {
        bytes.update(a as int, v)
    }
}

/// The write-watch flags after a write at `a`.
pub open spec fn mark_spec(written: Seq<bool>, a: u16) -> Seq<bool> {
    if a >= 0xFF00 {
        written.update(a - 0xFF00, true)
    } else {
        written
    }
}

/// The value that the boot sequence leaves at address `a`, if it sets one.
pub open spec fn boot_value(a: int) -> Option<u8> {
    if a == IORegister::P1 || a == IORegister::SC || a == IORegister::TIMA || a == IORegister::TMA
        || a == IORegister::TAC || a == IORegister::NR22 || a == IORegister::NR42 || a
        == IORegister::NR43 || a == IORegister::SCY || a == IORegister::SCX || a == IORegister::LY
        || a == IORegister::LYC || a == IORegister::WY || a == IORegister::WX || a == IORegister::IE {
        Some(0x00)
    } else if a == IORegister::NR10 {
        Some(0x80)
    } else if a == IORegister::NR11 || a == IORegister::NR14 || a == IORegister::NR24 || a
        == IORegister::NR34 || a == IORegister::NR44 {
        Some(0xBF)
    } else if a == IORegister::NR12 || a == IORegister::NR51 {
        Some(0xF3)
    } else if a == IORegister::NR21 {
        Some(0x3F)
    } else if a == IORegister::NR30 {
        Some(0x7F)
    } else if a == IORegister::NR31 || a == IORegister::NR41 || a == IORegister::OBP0 || a
        == IORegister::OBP1 {
        Some(0xFF)
    } else if a == IORegister::NR32 {
        Some(0x9F)
    } else if a == IORegister::NR50 {
        Some(0x77)
    } else if a == IORegister::NR52 {
        Some(0xF1)
    } else if a == IORegister::LCDC {
        Some(0x91)
    } else if a == IORegister::BGP {
        Some(0xFC)
    } else {
        None
    }
}

/// `bytes` with the post-boot register values applied.
pub open spec fn boot_spec(bytes: Seq<u8>) -> Seq<u8> {
    Seq::new(
        bytes.len(),
        |i: int|
            match boot_value(i) {
                Some(v) => v,
                None => bytes[i],
            },
    )
}

/// Where the cartridge title starts, and one past its end.
pub const TITLE_START: usize = 0x0134;
pub const TITLE_END: usize = 0x0143;
/// Size of a ROM-only cartridge image.
pub const ROM_SIZE: usize = 0x8000;

/// Why a cartridge image is refused.
#[derive(Clone, Copy, Debug, PartialEq, Eq, Structural)]
pub enum RomError {
    /// The image is shorter than 32 KiB.
    TooShort,
    /// The cartridge type byte (`0x0147`) is not zero (ROM only).
    UnsupportedCartridgeType,
    /// The ROM size byte (`0x0148`) is not zero (32 KiB).
    UnsupportedRomSize,
}

/// The bytes of `s` that are not zero, in order.
pub open spec fn nonzero_spec(s: Seq<u8>) -> Seq<u8>
    decreases s.len(),
{
    if s.len() == 0 {
        s
    } else {
        let r = nonzero_spec(s.drop_last());
        if s.last() != 0 {
            r.push(s.last())
        } else {
            r
        }
    }
}

/// Whether the character with code `b` is Unicode white space.
pub open spec fn is_space_spec(b: u8) -> bool {
    (0x09 <= b <= 0x0D) || b == 0x20 || b == 0x85 || b == 0xA0
}

/// `s` without its trailing white space.
pub open spec fn trim_end_spec(s: Seq<u8>) -> Seq<u8>
    decreases s.len(),
{
    if s.len() > 0 && is_space_spec(s.last()) {
        trim_end_spec(s.drop_last())
    } else {
        s
    }
}

/// `s` without its leading white space.
pub open spec fn trim_start_spec(s: Seq<u8>) -> Seq<u8>
    decreases s.len(),
{
    if s.len() > 0 && is_space_spec(s[0]) {
        trim_start_spec(s.drop_first())
    } else {
        s
    }
}

/// The cartridge title: the non-zero bytes of `0x0134..=0x0142`, each read as
/// the character of that code, without leading and trailing white space.
pub open spec fn title_spec(bytes: Seq<u8>) -> Seq<char> {
    trim_start_spec(trim_end_spec(nonzero_spec(bytes.subrange(TITLE_START as int, TITLE_END as int)))).map_values(
        |b: u8| b as char,
    )
}

/// Relies on std's `FromIterator<char>` for `String`: the string holds the
/// characters in order.
#[verifier::external_body]
fn string_from_chars(chars: &Vec<char>) -> (r: String)
    ensures
        r@ == chars@,
{
    chars.iter().collect()
}

fn is_space(b: u8) -> (r: bool)
    ensures
        r == is_space_spec(b),
{
    (0x09 <= b && b <= 0x0D) || b == 0x20 || b == 0x85 || b == 0xA0
}

/// The 64 KiB address space with its write-watch flags.
pub struct Memory {
    pub data: Vec<u8>,
    pub io_written_to: Vec<bool>,
}

impl View for Memory {
    type V = MemView;

    open spec fn view(&self) -> MemView {
        MemView { bytes: self.data@, written: self.io_written_to@ }
    }
}

/// Relies on rand's `Rng::fill` on the thread-local generator: it fills every
/// byte of the slice and leaves its length as it is. Nothing is promised of
/// the bytes; `fill` panics only when the system's entropy source fails.
#[verifier::external_body]
fn random_bytes(n: usize) -> (r: Vec<u8>)
    ensures
        r.len() == n,
{
    let mut v = vec![0u8; n];
    rand::Rng::fill(&mut rand::thread_rng(), &mut v[..]);
    v
}

impl Memory {
    pub open spec fn wf(&self) -> bool {
        self.data.len() == MEMORY_SIZE && self.io_written_to.len() == IO_SIZE
    }

    /// Memory filled with random bytes, then given the post-boot register values.
    pub fn new() -> (r: Self)
        ensures
            r.wf(),
            exists|noise: Seq<u8>| noise.len() == MEMORY_SIZE && r@.bytes == boot_spec(noise),
            forall|i: int| 0 <= i < IO_SIZE ==> !r@.written[i],
    {
        let noise = random_bytes(MEMORY_SIZE);
        let r = Memory::from_bytes(noise);
        r
    }

    /// Memory holding `data`, then given the post-boot register values; no
    /// write-watch flag is set.
    pub fn from_bytes(data: Vec<u8>) -> (r: Self)
        requires
            data.len() == MEMORY_SIZE,
        ensures
            r.wf(),
            r@.bytes == boot_spec(data@),
            forall|i: int| 0 <= i < IO_SIZE ==> !r@.written[i],
    {
        let mut data = data;
        let ghost start = data@;
        data.set(IORegister::P1 as usize, 0x00);
        data.set(IORegister::SC as usize, 0x00);
        data.set(IORegister::TIMA as usize, 0x00);
        data.set(IORegister::TMA as usize, 0x00);
        data.set(IORegister::TAC as usize, 0x00);
        data.set(IORegister::NR10 as usize, 0x80);
        data.set(IORegister::NR11 as usize, 0xBF);
        data.set(IORegister::NR12 as usize, 0xF3);
        data.set(IORegister::NR14 as usize, 0xBF);
        data.set(IORegister::NR21 as usize, 0x3F);
        data.set(IORegister::NR22 as usize, 0x00);
        data.set(IORegister::NR24 as usize, 0xBF);
        data.set(IORegister::NR30 as usize, 0x7F);
        data.set(IORegister::NR31 as usize, 0xFF);
        data.set(IORegister::NR32 as usize, 0x9F);
        data.set(IORegister::NR34 as usize, 0xBF);
        data.set(IORegister::NR41 as usize, 0xFF);
        data.set(IORegister::NR42 as usize, 0x00);
        data.set(IORegister::NR43 as usize, 0x00);
        data.set(IORegister::NR44 as usize, 0xBF);
        data.set(IORegister::NR50 as usize, 0x77);
        data.set(IORegister::NR51 as usize, 0xF3);
        data.set(IORegister::NR52 as usize, 0xF1);
        data.set(IORegister::LCDC as usize, 0x91);
        data.set(IORegister::SCY as usize, 0x00);
        data.set(IORegister::SCX as usize, 0x00);
        data.set(IORegister::LY as usize, 0x00);
        data.set(IORegister::LYC as usize, 0x00);
        data.set(IORegister::BGP as usize, 0xFC);
        data.set(IORegister::OBP0 as usize, 0xFF);
        data.set(IORegister::OBP1 as usize, 0xFF);
        data.set(IORegister::WY as usize, 0x00);
        data.set(IORegister::WX as usize, 0x00);
        data.set(IORegister::IE as usize, 0x00);
        assert(data@ =~= boot_spec(start));
        Memory { data, io_written_to: vec![false; IO_SIZE] }
    }

    /// The raw byte stored at `address`, without any read policy.
    pub fn get(&self, address: u16) -> (r: u8)
        requires
            self.wf(),
        ensures
            r == self@.bytes[address as int],
    {
        self.data[address as usize]
    }

    /// Stores `value` at `address`, without any write policy.
    pub fn set(&mut self, address: u16, value: u8)
        requires
            old(self).wf(),
        ensures
            final(self).wf(),
            final(self)@.bytes == old(self)@.bytes.update(address as int, value),
            final(self)@.written == old(self)@.written,
    {
        self.data.set(address as usize, value);
    }

    pub fn read_cartridge_type(&self) -> (r: u8)
        requires
            self.wf(),
        ensures
            r == self@.bytes[0x0147],
    {
        self.data[0x0147]
    }

    pub fn read_rom_size(&self) -> (r: u8)
        requires
            self.wf(),
        ensures
            r == self@.bytes[0x0148],
    {
        self.data[0x0148]
    }

    pub fn read_byte(&self, address: u16) -> (r: u8)
        requires
            self.wf(),
        ensures
            r == read_spec(self@.bytes, address),
    {
        if address == IORegister::P1 {
            0xFF  // No buttons pressed.

        } else {
            self.data[address as usize]
        }
    }

    pub fn read_word(&self, address: u16) -> (r: u16)
        requires
            self.wf(),
        ensures
            r == read_word_spec(self@.bytes, address),
    {
        let lo = self.read_byte(address);
        let hi = self.read_byte(address.wrapping_add(1));
        hi as u16 * 256 + lo as u16
    }

    pub fn write_byte(&mut self, address: u16, data: u8)
        requires
            old(self).wf(),
        ensures
            final(self).wf(),
            final(self)@.bytes == write_spec(old(self)@.bytes, address, data),
            final(self)@.written == mark_spec(old(self)@.written, address),
    {
        if address <= 0x7FFF {
            return ;  // Can't write to ROM area.
        } else if 0xC000 <= address && address <= 0xDDFF {
            self.data.set((address + 0x2000) as usize, data);
        } else if 0xE000 <= address && address <= 0xFDFF {
            self.data.set((address - 0x2000) as usize, data);
        } else if address >= 0xFF00 {
            self.write_io(address, data);
            self.io_written_to.set((address - 0xFF00) as usize, true);
            return ;
        }
        self.data.set(address as usize, data);
        proof {
            if 0xC000 <= address <= 0xFDFF {
                assert(self@.bytes =~= write_spec(old(self)@.bytes, address, data));
            }
        }
    }

    pub fn write_word(&mut self, address: u16, data: u16)
        requires
            old(self).wf(),
        ensures
            final(self).wf(),
            final(self)@.bytes == write_spec(
                write_spec(old(self)@.bytes, address, (data % 256) as u8),
                next_address(address),
                (data / 256) as u8,
            ),
            final(self)@.written == mark_spec(
                mark_spec(old(self)@.written, address),
                next_address(address),
            ),
    {
        self.write_byte(address, (data % 256) as u8);
        self.write_byte(address.wrapping_add(1), (data / 256) as u8);
    }

    fn write_io(&mut self, address: u16, data: u8)
        requires
            old(self).wf(),
            address >= 0xFF00,
        ensures
            final(self).wf(),
            final(self)@.bytes == write_spec(old(self)@.bytes, address, data),
            final(self)@.written == old(self)@.written,
    {
        if address == IORegister::DIV {
            self.data.set(IORegister::DIV as usize, 0);
        } else if address == IORegister::DMA {
            self.dma_transfer(data);
        } else {
            self.data.set(address as usize, data);
        }
    }

    /// Copies 160 bytes from page `source_address` to object attribute memory.
    fn dma_transfer(&mut self, source_address: u8)
        requires
            old(self).wf(),
        ensures
            final(self).wf(),
            final(self)@.bytes == dma_spec(old(self)@.bytes, source_address),
            final(self)@.written == old(self)@.written,
    {
        let address: usize = source_address as usize * 256;
        let mut offset: usize = 0;
        while offset < OAM_SIZE as usize
            invariant
                self.wf(),
                offset <= OAM_SIZE,
                address == source_address as int * 256,
                self@.written == old(self)@.written,
                forall|i: int|
                    #![trigger self.data@[i]]
                    0 <= i < MEMORY_SIZE ==> self.data@[i] == if OAM_START <= i < OAM_START
                        + offset {
                        old(self).data@[address + (i - OAM_START)]
                    } else {
                        old(self).data@[i]
                    },
            decreases OAM_SIZE - offset,
        {
            let value = self.data[address + offset];
            self.data.set(OAM_START as usize + offset, value);
            offset += 1;
        }
        assert(self@.bytes =~= dma_spec(old(self)@.bytes, source_address));
    }

    /// The cartridge title.
    pub fn read_game_title(&self) -> (r: String)
        requires
            self.wf(),
        ensures
            r@ == title_spec(self@.bytes),
    {
        let ghost src = self@.bytes.subrange(TITLE_START as int, TITLE_END as int);
        let mut kept: Vec<u8> = Vec::new();
        let mut k: usize = TITLE_START;
        while k < TITLE_END
            invariant
                self.wf(),
                TITLE_START <= k <= TITLE_END,
                src == self@.bytes.subrange(TITLE_START as int, TITLE_END as int),
                kept@ == nonzero_spec(self@.bytes.subrange(TITLE_START as int, k as int)),
                kept.len() <= k - TITLE_START,
            decreases TITLE_END - k,
        {
            let b = self.data[k];
            assert(self@.bytes.subrange(TITLE_START as int, k + 1).drop_last() =~= self@.bytes.subrange(
                TITLE_START as int,
                k as int,
            ));
            if b != 0 {
                kept.push(b);
            }
            k = k + 1;
        }
        while kept.len() > 0 && is_space(kept[kept.len() - 1])
            invariant
                trim_end_spec(kept@) == trim_end_spec(nonzero_spec(src)),
            decreases kept.len(),
        {
            kept.pop();
        }
        let ghost trimmed = kept@;
        assert(trim_end_spec(kept@) == kept@);
        let mut start: usize = 0;
        assert(kept@.subrange(0, kept.len() as int) =~= kept@);
        while start < kept.len() && is_space(kept[start])
            invariant
                start <= kept.len(),
                kept@ == trimmed,
                trim_start_spec(kept@.subrange(start as int, kept.len() as int)) == trim_start_spec(trimmed),
            decreases kept.len() - start,
        {
            assert(kept@.subrange(start as int, kept.len() as int).drop_first() =~= kept@.subrange(
                start + 1,
                kept.len() as int,
            ));
            start = start + 1;
        }
        let ghost body = kept@.subrange(start as int, kept.len() as int);
        assert(trim_start_spec(body) == body);
        let mut chars: Vec<char> = Vec::new();
        let mut i: usize = start;
        while i < kept.len()
            invariant
                start <= i <= kept.len(),
                kept@ == trimmed,
                body == kept@.subrange(start as int, kept.len() as int),
                chars@ == kept@.subrange(start as int, i as int).map_values(|b: u8| b as char),
            decreases kept.len() - i,
        {
            chars.push(kept[i] as char);
            assert(kept@.subrange(start as int, i + 1).map_values(|b: u8| b as char) =~= kept@.subrange(
                start as int,
                i as int,
            ).map_values(|b: u8| b as char).push(kept[i as int] as char));
            i = i + 1;
        }
        assert(chars@ =~= title_spec(self@.bytes));
        string_from_chars(&chars)
    }

    /// Loads a ROM-only cartridge: its first 32 KiB go to `0x0000..0x8000`,
    /// then the cartridge type and ROM size bytes are checked.
    pub fn load_rom(&mut self, rom: &[u8]) -> (r: Result<(), RomError>)
        requires
            old(self).wf(),
        ensures
            final(self).wf(),
            final(self)@.written == old(self)@.written,
            rom@.len() < ROM_SIZE ==> r == Err::<(), RomError>(RomError::TooShort) && final(self)@
                == old(self)@,
            rom@.len() >= ROM_SIZE ==> {
                &&& final(self)@.bytes == rom@.subrange(0, ROM_SIZE as int) + old(self)@.bytes.subrange(
                    ROM_SIZE as int,
                    MEMORY_SIZE as int,
                )
                &&& r == if rom@[0x0147] != 0 {
                    Err(RomError::UnsupportedCartridgeType)
                } else if rom@[0x0148] != 0 {
                    Err(RomError::UnsupportedRomSize)
                } else {
                    Ok(())
                }
            },
    {
        if rom.len() < ROM_SIZE {
            return Err(RomError::TooShort);
        }
        let mut i: usize = 0;
        while i < ROM_SIZE
            invariant
                self.wf(),
                i <= ROM_SIZE,
                rom@.len() >= ROM_SIZE,
                self@.written == old(self)@.written,
                forall|j: int|
                    0 <= j < MEMORY_SIZE ==> #[trigger] self.data@[j] == if j < i {
                        rom@[j]
                    } else {
                        old(self).data@[j]
                    },
            decreases ROM_SIZE - i,
        {
            self.data.set(i, rom[i]);
            i = i + 1;
        }
        assert(self@.bytes =~= rom@.subrange(0, ROM_SIZE as int) + old(self)@.bytes.subrange(
            ROM_SIZE as int,
            MEMORY_SIZE as int,
        ));
        if self.read_cartridge_type() != 0 {
            return Err(RomError::UnsupportedCartridgeType);
        }
        if self.read_rom_size() != 0 {
            return Err(RomError::UnsupportedRomSize);
        }
        Ok(())
    }
}

/// Work RAM and its echo agree: every byte of `C000..=DDFF` equals the byte
/// `0x2000` above it.
pub open spec fn mirrored(bytes: Seq<u8>) -> bool {
    forall|a: int| 0xC000 <= a <= 0xDDFF ==> #[trigger] bytes[a] == bytes[a + 0x2000]
}

/// A write to work RAM (`C000..=DDFF`) reads back at its echo `a + 0x2000`,
/// and a write to the echo (`E000..=FDFF`) reads back at `a - 0x2000`; a
/// write anywhere keeps work RAM and its echo in agreement.
pub proof fn lemma_echo_mirror(bytes: Seq<u8>, a: u16, v: u8)
    requires
        bytes.len() == MEMORY_SIZE,
    ensures
        0xC000 <= a <= 0xDDFF ==> read_spec(write_spec(bytes, a, v), (a + 0x2000) as u16) == v
            && read_spec(write_spec(bytes, a, v), a) == v,
        0xE000 <= a <= 0xFDFF ==> read_spec(write_spec(bytes, a, v), (a - 0x2000) as u16) == v
            && read_spec(write_spec(bytes, a, v), a) == v,
        mirrored(bytes) ==> mirrored(write_spec(bytes, a, v)),
{
}

/// Writes to the ROM area (`0000..=7FFF`) change nothing: every read
/// returns what it returned before.
pub proof fn lemma_rom_read_only(bytes: Seq<u8>, a: u16, v: u8)
    requires
        bytes.len() == MEMORY_SIZE,
        a < 0x8000,
    ensures
        write_spec(bytes, a, v) == bytes,
        forall|b: u16| read_spec(write_spec(bytes, a, v), b) == read_spec(bytes, b),
{
}

/// After any byte is written to DIV, reading DIV returns zero.
pub proof fn lemma_div_reset(bytes: Seq<u8>, v: u8)
    requires
        bytes.len() == MEMORY_SIZE,
    ensures
        read_spec(write_spec(bytes, IORegister::DIV, v), IORegister::DIV) == 0,
{
}

/// A DMA transfer from page `source` leaves in object attribute memory the
/// 160 bytes that stood at `source * 0x100`.
pub proof fn lemma_dma_copies(bytes: Seq<u8>, source: u8)
    requires
        bytes.len() == MEMORY_SIZE,
    ensures
        forall|i: int|
            0 <= i < OAM_SIZE ==> #[trigger] write_spec(bytes, IORegister::DMA, source)[OAM_START + i]
                == bytes[source * 256 + i],
{
}

} // verus!
