use gaby::memory::{IORegister, Memory, RomError};

fn zeroed() -> Memory {
    Memory::from_bytes(vec![0u8; 0x10000])
}

#[test]
fn echo_mirror_both_ways() {
    let mut mem = zeroed();
    mem.write_byte(0xC123, 0xAB);
    assert_eq!(mem.read_byte(0xE123), 0xAB);
    mem.write_byte(0xFDFF, 0xCD);
    assert_eq!(mem.read_byte(0xDDFF), 0xCD);
    mem.write_byte(0xDE00, 0x11);
    assert_eq!(mem.read_byte(0xFE00), 0x00);
}

#[test]
fn rom_writes_are_ignored() {
    let mut mem = zeroed();
    mem.set(0x1234, 0x99);
    mem.write_byte(0x1234, 0x55);
    mem.write_byte(0x7FFF, 0x55);
    assert_eq!(mem.read_byte(0x1234), 0x99);
    assert_eq!(mem.read_byte(0x7FFF), 0x00);
}

#[test]
fn div_write_resets() {
    let mut mem = zeroed();
    mem.set(IORegister::DIV, 0x37);
    mem.write_byte(IORegister::DIV, 0xFF);
    assert_eq!(mem.read_byte(IORegister::DIV), 0);
    assert!(mem.io_written_to[0x04]);
}

#[test]
fn joypad_reads_released() {
    let mut mem = zeroed();
    mem.write_byte(IORegister::P1, 0x20);
    assert_eq!(mem.read_byte(IORegister::P1), 0xFF);
    assert_eq!(mem.get(IORegister::P1), 0x20);
}

#[test]
fn dma_copies_pattern() {
    let mut mem = zeroed();
    for i in 0..0xA0u16 {
        mem.write_byte(0x8000 + i, (i as u8).wrapping_mul(7).wrapping_add(3));
    }
    mem.write_byte(IORegister::DMA, 0x80);
    for i in 0..0xA0u16 {
        assert_eq!(mem.read_byte(0xFE00 + i), (i as u8).wrapping_mul(7).wrapping_add(3));
    }
}

#[test]
fn words_are_little_endian() {
    let mut mem = zeroed();
    mem.write_word(0xC000, 0xBEEF);
    assert_eq!(mem.read_byte(0xC000), 0xEF);
    assert_eq!(mem.read_byte(0xC001), 0xBE);
    assert_eq!(mem.read_word(0xC000), 0xBEEF);
}

#[test]
fn title_is_trimmed() {
    let mut data = vec![0u8; 0x10000];
    let title = b"  TETRIS\0\0 \0\0\0\0";
    data[0x134..0x143].copy_from_slice(title);
    let mem = Memory::from_bytes(data);
    assert_eq!(mem.read_game_title(), "TETRIS");
}

#[test]
fn title_keeps_inner_spaces() {
    let mut data = vec![0u8; 0x10000];
    data[0x134..0x143].copy_from_slice(b"SUPER\0MARIO LND");
    let mem = Memory::from_bytes(data);
    assert_eq!(mem.read_game_title(), "SUPERMARIO LND");
}

#[test]
fn load_rom_checks_header() {
    let mut mem = zeroed();
    assert_eq!(mem.load_rom(&[0u8; 100]), Err(RomError::TooShort));
    let mut rom = vec![0u8; 0x8000];
    rom[0x100] = 0x3C;
    assert_eq!(mem.load_rom(&rom), Ok(()));
    assert_eq!(mem.read_byte(0x0100), 0x3C);
    rom[0x147] = 1;
    assert_eq!(mem.load_rom(&rom), Err(RomError::UnsupportedCartridgeType));
    rom[0x147] = 0;
    rom[0x148] = 1;
    assert_eq!(mem.load_rom(&rom), Err(RomError::UnsupportedRomSize));
}

#[test]
fn read_word_wraps_at_top() {
    let mut mem = zeroed();
    mem.set(0xFFFF, 0x34);
    mem.set(0x0000, 0x12);
    assert_eq!(mem.read_word(0xFFFF), 0x1234);
}

#[test]
fn empty_title() {
    let mem = zeroed();
    assert_eq!(mem.read_game_title(), "");
}
