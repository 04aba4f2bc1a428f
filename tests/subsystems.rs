use gaby::audio::{Audio, SAMPLE_BUFFER_SIZE};
use gaby::machine::Machine;
use gaby::memory::{IORegister, Memory};
use gaby::timer::Timer;
use gaby::video::{LCDMode, Video};

fn zeroed() -> Memory {
    Memory::from_bytes(vec![0u8; 0x10000])
}

#[test]
fn timer_overflow_requests_interrupt() {
    let mut mem = zeroed();
    let mut timer = Timer::new();
    mem.set(IORegister::TAC, 0x05);
    mem.set(IORegister::TMA, 0x42);
    mem.set(IORegister::TIMA, 0xFF);
    mem.set(IORegister::IF, 0x00);
    for _ in 0..5 {
        timer.tick(&mut mem).unwrap();
    }
    assert_eq!(mem.get(IORegister::IF) & 0x04, 0x04);
    assert_eq!(mem.get(IORegister::TIMA), mem.get(IORegister::TMA));
}

#[test]
fn div_counts_every_64_cycles() {
    let mut mem = zeroed();
    let mut timer = Timer::new();
    for _ in 0..130 {
        timer.tick(&mut mem).unwrap();
    }
    assert_eq!(mem.get(IORegister::DIV), 3);
}

#[test]
fn ly_stays_in_range() {
    let mut mem = zeroed();
    let mut video = Video::new();
    let mut max_ly = 0;
    let mut saw_vblank = false;
    for _ in 0..(17556 * 2) {
        video.tick(&mut mem).unwrap();
        let ly = mem.get(IORegister::LY);
        assert!(ly < 154);
        max_ly = max_ly.max(ly);
        if video.lcd_mode(&mem) == LCDMode::VBlank {
            saw_vblank = true;
        }
    }
    assert_eq!(max_ly, 153);
    assert!(saw_vblank);
    assert_eq!(mem.get(IORegister::IF) & 0x01, 0x01);
}

#[test]
fn background_line_is_rendered() {
    let mut mem = zeroed();
    mem.set(IORegister::LCDC, 0x91);
    mem.set(IORegister::BGP, 0xE4);
    // Tile 0, row 0: low plane 0xF0, high plane 0xCC.
    mem.set(0x8000, 0xF0);
    mem.set(0x8001, 0xCC);
    let mut video = Video::new();
    mem.set(IORegister::LY, 0);
    video.set_lcd_mode(&mut mem, LCDMode::Transfer);
    let expected = [0u8, 0, 170, 170, 85, 85, 255, 255];
    for x in 0..8 {
        assert_eq!(video.pixel_data()[x * 3], expected[x]);
        assert_eq!(video.pixel_data()[x * 3 + 2], expected[x]);
    }
    assert_eq!(mem.get(IORegister::STAT) & 0x03, 3);
    assert_eq!(video.shade_to_rgb(1), 170);
}

#[test]
fn trigger_enables_channel() {
    let mut mem = zeroed();
    let mut audio = Audio::new();
    mem.write_byte(IORegister::NR12, 0xF3);
    mem.write_byte(IORegister::NR13, 0x00);
    mem.write_byte(IORegister::NR14, 0x87);
    audio.tick(&mut mem);
    assert!(audio.channels[0].output_enabled);
    assert_eq!(audio.channels[0].length_counter, 64);
    assert_eq!(audio.channels[0].envelope_value, 0x0F);
    assert!(!mem.io_written_to[0x14]);
    mem.write_byte(IORegister::NR31, 0x10);
    audio.tick(&mut mem);
    assert_eq!(audio.channels[2].length_counter, 0xF0);
}

#[test]
fn sample_buffer_fills() {
    let mut mem = zeroed();
    let mut audio = Audio::new();
    let mut completed = 0;
    for _ in 0..(SAMPLE_BUFFER_SIZE * 16) {
        if audio.tick(&mut mem) {
            completed += 1;
        }
    }
    assert_eq!(completed, 1);
    assert_eq!(audio.samples().len(), SAMPLE_BUFFER_SIZE);
    assert_eq!(audio.samples()[1], -60);
}

#[test]
fn frame_runs_17556_cycles() {
    let mem = zeroed();
    let mut machine = Machine::new(mem);
    let buffers = machine.run_frame().unwrap();
    assert_eq!(machine.cpu.reg.pc, 0x0100 + 17556);
    assert!(buffers.len() <= 2);
}

#[test]
fn length_counter_disables_channel() {
    let mut mem = zeroed();
    let mut audio = Audio::new();
    // Length 63 loaded from NR21, length enabled and trigger in NR24.
    mem.write_byte(IORegister::NR21, 0x3F);
    mem.write_byte(IORegister::NR24, 0xC0);
    audio.tick(&mut mem);
    assert!(audio.channels[1].output_enabled);
    assert_eq!(audio.channels[1].length_counter, 1);
    for _ in 0..4096 {
        audio.tick(&mut mem);
    }
    assert_eq!(audio.channels[1].length_counter, 0);
    assert!(!audio.channels[1].output_enabled);
}

#[test]
fn noise_trigger_reseeds_register() {
    let mut mem = zeroed();
    let mut audio = Audio::new();
    audio.lfsr = 0x1234;
    mem.write_byte(IORegister::NR42, 0xF0);
    mem.write_byte(IORegister::NR44, 0x80);
    audio.tick(&mut mem);
    assert!(audio.channels[3].output_enabled);
    assert_eq!(audio.channels[3].envelope_value, 15);
    // All ones shifted once: bit 0 XOR bit 1 is zero, so bit 14 clears.
    assert_eq!(audio.lfsr, 0x3FFF);
    assert_eq!(audio.channels[3].sample, 15);
}

#[test]
fn ly_returns_after_a_frame() {
    let mut mem = zeroed();
    let mut video = Video::new();
    video.tick(&mut mem).unwrap();
    for _ in 0..500 {
        video.tick(&mut mem).unwrap();
    }
    let ly = mem.get(IORegister::LY);
    for _ in 0..17556 {
        video.tick(&mut mem).unwrap();
    }
    assert_eq!(mem.get(IORegister::LY), ly);
}

#[test]
fn fresh_timer_overflow_counts_on() {
    let mut mem = zeroed();
    let mut timer = Timer::new();
    mem.set(IORegister::TAC, 0x05);
    mem.set(IORegister::TIMA, 0xFE);
    for _ in 0..4 {
        timer.tick(&mut mem).unwrap();
    }
    assert_eq!(mem.get(IORegister::TIMA), 0xFF);
    assert_eq!(mem.get(IORegister::IF) & 0x04, 0);
    for _ in 0..4 {
        timer.tick(&mut mem).unwrap();
    }
    assert_eq!(mem.get(IORegister::TIMA), 0x00);
    assert_eq!(mem.get(IORegister::IF) & 0x04, 0x04);
}
