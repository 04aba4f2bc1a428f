use vstd::prelude::*;
use crate::instructions::signed8;
use crate::memory::{IORegister, Memory, MEMORY_SIZE};

verus! {

pub const SCREEN_WIDTH: u8 = 160;
pub const SCREEN_HEIGHT: u8 = 144;
/// Number of scanlines, visible and V-blank.
pub const LY_MAX: u8 = 154;
pub const TICKS_VBLANK: u32 = 1140;
pub const TICKS_HBLANK: u32 = 51;
pub const TICKS_OAM: u32 = 20;
pub const TICKS_TRANSFER: u32 = 43;
pub const TICKS_PER_LINE: u32 = 114;
pub const BYTES_PER_PIXEL: usize = 3;
pub const BYTES_PER_LINE: usize = 480;
pub const BYTES_PER_SCREEN: usize = 69120;

/// The LCD controller mode, as held in `STAT[1:0]`.
#[derive(Clone, Copy, Debug, PartialEq, Eq, Structural)]
pub enum LCDMode {
    HBlank,
    VBlank,
    OAM,
    Transfer,
}

pub open spec fn mode_of(stat: u8) -> LCDMode {
    let m = stat & 0x03;
    if m == 0 {
        LCDMode::HBlank
    } else if m == 1 {
        LCDMode::VBlank
    } else if m == 2 {
        LCDMode::OAM
    } else {
        LCDMode::Transfer
    }
}

pub open spec fn mode_code(mode: LCDMode) -> u8 {
    match mode {
        LCDMode::HBlank => 0,
        LCDMode::VBlank => 1,
        LCDMode::OAM => 2,
        LCDMode::Transfer => 3,
    }
}

/// The mode that follows `mode`; HBlank leads to V-blank once LY reaches 144.
pub open spec fn next_mode(mode: LCDMode, ly: u8) -> LCDMode {
    match mode {
        LCDMode::HBlank => if ly == 144 {
            LCDMode::VBlank
        } else {
            LCDMode::OAM
        },
        LCDMode::VBlank => LCDMode::OAM,
        LCDMode::OAM => LCDMode::Transfer,
        LCDMode::Transfer => LCDMode::HBlank,
    }
}

pub open spec fn mode_ticks(mode: LCDMode) -> u32 {
    match mode {
        LCDMode::HBlank => TICKS_HBLANK,
        LCDMode::VBlank => TICKS_VBLANK,
        LCDMode::OAM => TICKS_OAM,
        LCDMode::Transfer => TICKS_TRANSFER,
    }
}

/// The 8-bit grey level of a 2-bit shade.
pub open spec fn shade_rgb(shade: u8) -> u8 {
    if shade == 0 {
        255
    } else if shade == 1 {
        170
    } else if shade == 2 {
        85
    } else {
        0
    }
}

/// The address of the first byte of the background tile that covers the
/// scrolled position (`sx`, `sy`).
pub open spec fn tile_address(bytes: Seq<u8>, sx: int, sy: int) -> int {
    let lcdc = bytes[IORegister::LCDC as int];
    let map: int = if lcdc & 0x08 != 0 {
        0x9C00
    } else {
        0x9800
    };
    let index = bytes[map + (sy / 8) * 32 + sx / 8];
    if lcdc & 0x10 != 0 {
        0x8000 + index * 16
    } else {
        0x9000 + signed8(index) * 16
    }
}

/// The grey level of background pixel `x` on scanline `y`.
pub open spec fn bg_pixel(bytes: Seq<u8>, y: u8, x: int) -> u8 {
    let sy = (y + bytes[IORegister::SCY as int]) % 256;
    let sx = (x + bytes[IORegister::SCX as int]) % 256;
    let tile = tile_address(bytes, sx, sy);
    let lo = bytes[tile + (sy % 8) * 2];
    let hi = bytes[tile + (sy % 8) * 2 + 1];
    let bit = (7 - sx % 8) as u8;
    let shade = (((hi >> bit) & 1) * 2 + ((lo >> bit) & 1)) as u8;
    shade_rgb((bytes[IORegister::BGP as int] >> (shade * 2) as u8) & 3)
}

/// The framebuffer after the background of scanline LY is drawn; lines from
/// 144 on are not drawn.
pub open spec fn render_spec(pixels: Seq<u8>, bytes: Seq<u8>) -> Seq<u8> {
    let y = bytes[IORegister::LY as int];
    Seq::new(
        pixels.len(),
        |i: int|
            if y < SCREEN_HEIGHT && y * 480 <= i < y * 480 + 480 {
                bg_pixel(bytes, y, (i - y * 480) / 3)
            } else {
                pixels[i]
            },
    )
}

/// The framebuffer and bytes after entering `mode`: the LCD status
/// interrupt is requested when its STAT enable bit is set, V-blank also
/// requests the V-blank interrupt, Transfer draws the line, and `STAT[1:0]`
/// takes the mode.
pub open spec fn enter_mode_spec(pixels: Seq<u8>, bytes: Seq<u8>, mode: LCDMode) -> (Seq<u8>, Seq<u8>) {
    let stat = bytes[IORegister::STAT as int];
    let iflag = bytes[IORegister::IF as int];
    let enable: u8 = match mode {
        LCDMode::HBlank => 0x08,
        LCDMode::VBlank => 0x10,
        LCDMode::OAM => 0x20,
        LCDMode::Transfer => 0x00,
    };
    let i1 = if stat & enable != 0 {
        iflag | 0x02
    } else {
        iflag
    };
    let i2 = if mode == LCDMode::VBlank {
        i1 | 0x01
    } else {
        i1
    };
    let p = if mode == LCDMode::Transfer {
        render_spec(pixels, bytes)
    } else {
        pixels
    };
    (
        p,
        bytes.update(IORegister::IF as int, i2).update(
            IORegister::STAT as int,
            (stat & 0xFC) | mode_code(mode),
        ),
    )
}

/// The line part of a cycle: when the line counter has run out, LY advances
/// modulo 154, the coincidence flag is set when the new LY equals LYC (with
/// the LCD status interrupt when STAT bit 6 is set), and the counter is
/// reloaded.
pub open spec fn line_spec(line_counter: u32, bytes: Seq<u8>) -> (u32, Seq<u8>) {
    if line_counter == 0 {
        let ly = ((bytes[IORegister::LY as int] + 1) % 154) as u8;
        let b1 = bytes.update(IORegister::LY as int, ly);
        let b2 = if ly == b1[IORegister::LYC as int] {
            let stat = b1[IORegister::STAT as int] | 0x04;
            let b = b1.update(IORegister::STAT as int, stat);
            if stat & 0x40 != 0 {
                b.update(IORegister::IF as int, b[IORegister::IF as int] | 0x02)
            } else {
                b
            }
        } else {
            b1
        };
        (TICKS_PER_LINE, b2)
    } else {
        (line_counter, bytes)
    }
}

/// One machine cycle of the PPU on (mode counter, line counter, framebuffer,
/// bytes): the line part, then, when the mode counter has run out, entry into
/// the next mode; then both counters count down.
pub open spec fn video_step(mode_counter: u32, line_counter: u32, pixels: Seq<u8>, bytes: Seq<u8>) -> (
    u32,
    u32,
    Seq<u8>,
    Seq<u8>,
) {
    let l = line_spec(line_counter, bytes);
    if mode_counter == 0 {
        let b1 = l.1;
        let mode = next_mode(mode_of(b1[IORegister::STAT as int]), b1[IORegister::LY as int]);
        let e = enter_mode_spec(pixels, b1, mode);
        ((mode_ticks(mode) - 1) as u32, (l.0 - 1) as u32, e.0, e.1)
    } else {
        ((mode_counter - 1) as u32, (l.0 - 1) as u32, pixels, l.1)
    }
}

/// An all-black framebuffer.
pub open spec fn blank_screen() -> Seq<u8> {
    Seq::new(BYTES_PER_SCREEN as nat, |i: int| 0u8)
}

/// The pixel-processing unit: its framebuffer and mode and line countdowns.
pub struct Video {
    /// RGB24 framebuffer, 160 by 144, row-major.
    pub pixel_data: Vec<u8>,
    /// Machine cycles left in the current LCD mode.
    pub mode_counter: u32,
    /// Machine cycles left in the current scanline.
    pub line_counter: u32,
}

impl Video {
    pub open spec fn wf(&self) -> bool {
        self.pixel_data.len() == BYTES_PER_SCREEN
    }

    pub fn new() -> (r: Self)
        ensures
            r.wf(),
            r.mode_counter == TICKS_OAM,
            r.line_counter == TICKS_PER_LINE,
            r.pixel_data@ == blank_screen(),
    {
        let r = Video { pixel_data: vec![0u8; BYTES_PER_SCREEN], mode_counter: TICKS_OAM, line_counter: TICKS_PER_LINE };
        assert(r.pixel_data@ =~= blank_screen());
        r
    }

    /// The framebuffer.
    pub fn pixel_data(&self) -> (r: &[u8])
        ensures
            r@ == self.pixel_data@,
    {
        self.pixel_data.as_slice()
    }

    pub fn lcd_mode(&self, mem: &Memory) -> (r: LCDMode)
        requires
            mem.wf(),
        ensures
            r == mode_of(mem@.bytes[IORegister::STAT as int]),
    {
        let stat = mem.get(IORegister::STAT);
        let mode = stat & 0x03;
        assert(stat & 0x03 < 4) by (bit_vector);
        match mode {
            0 => LCDMode::HBlank,
            1 => LCDMode::VBlank,
            2 => LCDMode::OAM,
            _ => LCDMode::Transfer,
        }
    }

    /// Convert 2-bit shade to 8-bit for use in RGB.
    pub fn shade_to_rgb(&self, shade: u8) -> (r: u8)
        requires
            shade < 4,
        ensures
            r == shade_rgb(shade),
    {
        match shade {
            0 => 255,
            1 => 170,
            2 => 85,
            _ => 0,
        }
    }

    /// The grey level of background pixel `x` on scanline `y`.
    #[verifier::rlimit(40)]
    fn background_pixel(&self, mem: &Memory, y: u8, x: u8) -> (r: u8)
        requires
            mem.wf(),
        ensures
            r == bg_pixel(mem@.bytes, y, x as int),
    {
        let lcdc = mem.get(IORegister::LCDC);
        let map: u16 = if lcdc & 0x08 != 0 {
            0x9C00
        } else {
            0x9800
        };
        let scrolled_y = y.wrapping_add(mem.get(IORegister::SCY));
        let scrolled_x = x.wrapping_add(mem.get(IORegister::SCX));
        let tile_offset = (scrolled_y / 8) as u16 * 32 + (scrolled_x / 8) as u16;
        let tile_index = mem.get(map + tile_offset);
        let tile_data: u16 = if lcdc & 0x10 != 0 {
            0x8000 + tile_index as u16 * 16
        } else if tile_index < 128 {
            0x9000 + tile_index as u16 * 16
        } else {
            0x9000 - (256 - tile_index as u16) * 16
        };
        assert(scrolled_y == (y + mem@.bytes[IORegister::SCY as int]) % 256);
        assert(scrolled_x == (x + mem@.bytes[IORegister::SCX as int]) % 256);
        assert(tile_data == tile_address(mem@.bytes, scrolled_x as int, scrolled_y as int));
        let row = (scrolled_y % 8) as u16 * 2;
        let lo = mem.get(tile_data + row);
        let hi = mem.get(tile_data + row + 1);
        let bit = 7 - scrolled_x % 8;
        assert((hi >> bit) & 1 <= 1 && (lo >> bit) & 1 <= 1) by (bit_vector);
        let shade = ((hi >> bit) & 1) * 2 + ((lo >> bit) & 1);
        let bgp = mem.get(IORegister::BGP);
        assert((bgp >> (shade * 2)) & 3 < 4) by (bit_vector);
        self.shade_to_rgb((bgp >> (shade * 2)) & 3)
    }

    /// Draws the background of scanline LY into the framebuffer.
    fn render_line(&mut self, mem: &Memory)
        requires
            old(self).wf(),
            mem.wf(),
        ensures
            final(self).wf(),
            final(self).pixel_data@ == render_spec(old(self).pixel_data@, mem@.bytes),
            final(self).mode_counter == old(self).mode_counter,
            final(self).line_counter == old(self).line_counter,
    {
        let y = mem.get(IORegister::LY);
        if y < SCREEN_HEIGHT {
            let base: usize = y as usize * BYTES_PER_LINE;
            let mut x: u8 = 0;
            while x < SCREEN_WIDTH
                invariant
                    self.wf(),
                    mem.wf(),
                    y == mem@.bytes[IORegister::LY as int],
                    y < SCREEN_HEIGHT,
                    base == y * 480,
                    x <= SCREEN_WIDTH,
                    self.mode_counter == old(self).mode_counter,
                    self.line_counter == old(self).line_counter,
                    forall|i: int|
                        #![trigger self.pixel_data@[i]]
                        0 <= i < BYTES_PER_SCREEN ==> self.pixel_data@[i] == if base <= i < base + 3
                            * x {
                            bg_pixel(mem@.bytes, y, (i - base) / 3)
                        } else {
                            old(self).pixel_data@[i]
                        },
                decreases SCREEN_WIDTH - x,
            {
                let pixel = self.background_pixel(mem, y, x);
                let index = base + x as usize * BYTES_PER_PIXEL;
                self.pixel_data.set(index, pixel);
                self.pixel_data.set(index + 1, pixel);
                self.pixel_data.set(index + 2, pixel);
                assert(forall|k: int| 0 <= k < 3 ==> #[trigger] ((3 * x + k) / 3) == x);
                x = x + 1;
            }
        }
        assert(self.pixel_data@ =~= render_spec(old(self).pixel_data@, mem@.bytes));
    }

    /// Enters `mode`: requests the interrupts that STAT enables, draws the
    /// line on entry to Transfer, reloads the mode counter and records the
    /// mode in `STAT[1:0]`.
    pub fn set_lcd_mode(&mut self, mem: &mut Memory, mode: LCDMode)
        requires
            old(self).wf(),
            old(mem).wf(),
        ensures
            final(self).wf(),
            final(mem).wf(),
            (final(self).pixel_data@, final(mem)@.bytes) == enter_mode_spec(
                old(self).pixel_data@,
                old(mem)@.bytes,
                mode,
            ),
            final(mem)@.written == old(mem)@.written,
            final(self).mode_counter == mode_ticks(mode),
            final(self).line_counter == old(self).line_counter,
    {
        let stat = mem.get(IORegister::STAT);
        let (enable, mode_mask, ticks): (u8, u8, u32) = match mode {
            LCDMode::HBlank => (0x08, 0, TICKS_HBLANK),
            LCDMode::VBlank => (0x10, 1, TICKS_VBLANK),
            LCDMode::OAM => (0x20, 2, TICKS_OAM),
            LCDMode::Transfer => (0x00, 3, TICKS_TRANSFER),
        };
        if mode == LCDMode::Transfer {
            self.render_line(mem);
        }
        let mut flags = mem.get(IORegister::IF);
        if stat & enable != 0 {
            flags = flags | 0x02;
        }
        if mode == LCDMode::VBlank {
            flags = flags | 0x01;
        }
        mem.set(IORegister::IF, flags);
        self.mode_counter = ticks;
        mem.set(IORegister::STAT, (stat & 0xFC) | mode_mask);
    }

    /// One machine cycle of the LCD controller.
    pub fn tick(&mut self, mem: &mut Memory) -> (r: Result<(), String>)
        requires
            old(self).wf(),
            old(mem).wf(),
        ensures
            r is Ok,
            final(self).wf(),
            final(mem).wf(),
            (
                final(self).mode_counter,
                final(self).line_counter,
                final(self).pixel_data@,
                final(mem)@.bytes,
            ) == video_step(
                old(self).mode_counter,
                old(self).line_counter,
                old(self).pixel_data@,
                old(mem)@.bytes,
            ),
            final(mem)@.written == old(mem)@.written,
    {
        if self.line_counter == 0 {
            let ly = mem.get(IORegister::LY);
            let next_ly = ((ly as u16 + 1) % 154) as u8;
            mem.set(IORegister::LY, next_ly);
            if next_ly == mem.get(IORegister::LYC) {
                let stat = mem.get(IORegister::STAT) | 0x04;
                mem.set(IORegister::STAT, stat);
                if stat & 0x40 != 0 {
                    let f = mem.get(IORegister::IF);
                    mem.set(IORegister::IF, f | 0x02);
                }
            }
            self.line_counter = TICKS_PER_LINE;
        }
        if self.mode_counter == 0 {
            let mode = match self.lcd_mode(mem) {
                LCDMode::HBlank => {
                    if mem.get(IORegister::LY) == 144 {
                        LCDMode::VBlank
                    } else {
                        LCDMode::OAM
                    }
                },
                LCDMode::VBlank => LCDMode::OAM,
                LCDMode::OAM => LCDMode::Transfer,
                LCDMode::Transfer => LCDMode::HBlank,
            };
            self.set_lcd_mode(mem, mode);
        }
        self.mode_counter = self.mode_counter - 1;
        self.line_counter = self.line_counter - 1;
        Ok(())
    }
}

/// LY stays within `0..154` from one machine cycle to the next, and on
/// every mode entry `STAT[1:0]` holds the code of the mode entered.
pub proof fn lemma_ly_in_range(mode_counter: u32, line_counter: u32, pixels: Seq<u8>, bytes: Seq<u8>)
    requires
        bytes.len() == MEMORY_SIZE,
        bytes[IORegister::LY as int] < LY_MAX,
    ensures
        ({
            let s = video_step(mode_counter, line_counter, pixels, bytes);
            &&& s.3[IORegister::LY as int] < LY_MAX
            &&& s.3[IORegister::STAT as int] & 0x03 <= 3
            &&& mode_counter == 0 ==> s.3[IORegister::STAT as int] & 0x03 == mode_code(
                next_mode(
                    mode_of(line_spec(line_counter, bytes).1[IORegister::STAT as int]),
                    line_spec(line_counter, bytes).1[IORegister::LY as int],
                ),
            )
        }),
{
    let s = video_step(mode_counter, line_counter, pixels, bytes);
    let stat = s.3[IORegister::STAT as int];
    assert(stat & 0x03 <= 3) by (bit_vector);
    assert forall|x: u8, c: u8| c <= 3 implies #[trigger] ((x & 0xFC) | c) & 0x03 == c by {
        assert(c <= 3 ==> ((x & 0xFC) | c) & 0x03 == c) by (bit_vector);
    }
}

/// The PPU state after `n` machine cycles.
pub open spec fn video_run(mode_counter: u32, line_counter: u32, pixels: Seq<u8>, bytes: Seq<u8>, n: nat) -> (
    u32,
    u32,
    Seq<u8>,
    Seq<u8>,
)
    decreases n,
{
    if n == 0 {
        (mode_counter, line_counter, pixels, bytes)
    } else {
        let p = video_run(mode_counter, line_counter, pixels, bytes, (n - 1) as nat);
        video_step(p.0, p.1, p.2, p.3)
    }
}

/// After `n` cycles from a line countdown `lc` below 114, the countdown is
/// `(lc - n) mod 114` and LY has advanced once per line started, modulo 154.
proof fn lemma_lines(mode_counter: u32, lc: u32, pixels: Seq<u8>, bytes: Seq<u8>, n: nat)
    requires
        bytes.len() == MEMORY_SIZE,
        lc < TICKS_PER_LINE,
        bytes[IORegister::LY as int] < LY_MAX,
    ensures
        ({
            let s = video_run(mode_counter, lc, pixels, bytes, n);
            &&& s.3.len() == MEMORY_SIZE
            &&& s.1 == (lc - n) % 114
            &&& s.3[IORegister::LY as int] == (bytes[IORegister::LY as int] + (n + 113 - lc) / 114)
                % 154
        }),
    decreases n,
{
    if n > 0 {
        let m = (n - 1) as nat;
        lemma_lines(mode_counter, lc, pixels, bytes, m);
        let p = video_run(mode_counter, lc, pixels, bytes, m);
        let y0 = bytes[IORegister::LY as int] as int;
        let k = (m + 113 - lc) / 114;
        if p.1 == 0 {
            assert((lc - m) % 114 == 0);
            assert((lc - n) % 114 == 113) by (nonlinear_arith)
                requires
                    (lc - m) % 114 == 0,
                    n == m + 1,
            ;
            assert((n + 113 - lc) / 114 == k + 1) by (nonlinear_arith)
                requires
                    (lc - m) % 114 == 0,
                    n == m + 1,
                    k == (m + 113 - lc) / 114,
                    lc < 114,
            ;
            assert(((y0 + k) % 154 + 1) % 154 == (y0 + k + 1) % 154) by (nonlinear_arith);
        } else {
            assert((lc - n) % 114 == (lc - m) % 114 - 1) by (nonlinear_arith)
                requires
                    (lc - m) % 114 != 0,
                    n == m + 1,
            ;
            assert((n + 113 - lc) / 114 == k) by (nonlinear_arith)
                requires
                    (lc - m) % 114 != 0,
                    n == m + 1,
                    k == (m + 113 - lc) / 114,
                    lc < 114,
            ;
        }
    }
}

/// One frame of PPU cycles (154 lines of 114 cycles) brings LY back to
/// where it was, from any state whose line countdown is below 114.
pub proof fn lemma_frame_returns_ly(mode_counter: u32, line_counter: u32, pixels: Seq<u8>, bytes: Seq<u8>)
    requires
        bytes.len() == MEMORY_SIZE,
        line_counter < TICKS_PER_LINE,
        bytes[IORegister::LY as int] < LY_MAX,
    ensures
        video_run(mode_counter, line_counter, pixels, bytes, 17556).3[IORegister::LY as int]
            == bytes[IORegister::LY as int],
{
    lemma_lines(mode_counter, line_counter, pixels, bytes, 17556);
    let y0 = bytes[IORegister::LY as int] as int;
    assert((17556 + 113 - line_counter) / 114 == 154);
    assert((y0 + 154) % 154 == y0);
}

} // verus!
