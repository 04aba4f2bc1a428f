use vstd::prelude::*;
use crate::memory::{IORegister, Memory};

verus! {

/// Samples per buffer handed to the host.
pub const SAMPLE_BUFFER_SIZE: usize = 1024;
/// Machine cycles between two frame-sequencer steps, less one.
pub const FRAME_TIMER_RELOAD: u16 = 2047;
/// Machine cycles between two output samples, less one.
pub const DECIMATION_RELOAD: u8 = 15;
/// A channel sample is expressed in units of 1/60: a silent channel gives
/// `-SILENT_LEVEL`, an enabled one `SILENT_LEVEL - 2 * level`. The mixed
/// sample is the sum of the four channels, which the host scales by
/// 1/1200 (0.05 per channel sample of 1/60).
pub const SILENT_LEVEL: i32 = 15;

/// The state of one sound channel.
#[derive(Clone, Copy, Debug, PartialEq, Eq, Structural)]
pub struct Channel {
    pub output_enabled: bool,
    pub length_counter: u16,
    pub envelope_counter: u8,
    pub envelope_value: u8,
    pub frequency_timer: u16,
    pub waveform_position: u8,
    /// The current sample, in units of 1/60.
    pub sample: i32,
}

/// The address of register `n` (1 to 4) of channel `i`: NRx1 of channel 0
/// is `0xFF11`, and each channel's block is five registers long.
pub open spec fn nr_spec(i: int, n: int) -> u16 {
    (0xFF10 + 5 * i + n) as u16
}

/// The frequency-timer period of an 11-bit frequency; halved for the wave
/// channel.
pub open spec fn period_spec(nrx3: u8, nrx4: u8, wave: bool) -> u16 {
    let p = 2048 - ((nrx4 & 0x07) as int * 256 + nrx3 as int);
    if wave {
        (p / 2) as u16
    } else {
        p as u16
    }
}

/// A channel after a trigger: enabled, length reloaded when it had run
/// out (64, or 256 for the wave channel), frequency timer reloaded, and
/// envelope step and initial volume taken from NRx2.
pub open spec fn trigger_spec(ch: Channel, nrx2: u8, nrx3: u8, nrx4: u8, wave: bool) -> Channel {
    Channel {
        output_enabled: true,
        length_counter: if ch.length_counter == 0 {
            if wave {
                256
            } else {
                64
            }
        } else {
            ch.length_counter
        },
        frequency_timer: period_spec(nrx3, nrx4, wave),
        envelope_counter: nrx2 & 0x07,
        envelope_value: nrx2 >> 4,
        ..ch
    }
}

/// The length that a write of NRx1 loads: `64 - NRx1[5:0]`, or `256 - NRx1`
/// for the wave channel.
pub open spec fn length_load_spec(nrx1: u8, wave: bool) -> u16 {
    if wave {
        (256 - nrx1) as u16
    } else {
        (64 - (nrx1 & 0x3F)) as u16
    }
}

/// A length step: with length enabled (NRx4 bit 6), the counter counts down
/// and the channel is disabled when it reaches zero.
pub open spec fn length_step_spec(ch: Channel, nrx4: u8) -> Channel {
    if nrx4 & 0x40 != 0 && ch.length_counter > 0 {
        let l = (ch.length_counter - 1) as u16;
        Channel { length_counter: l, output_enabled: ch.output_enabled && l != 0, ..ch }
    } else {
        ch
    }
}

/// An envelope step: when the envelope counter has run out, the volume
/// moves one step (up when NRx2 bit 3 is set, within 0 to 15) if the step
/// length `NRx2[2:0]` is non-zero, and the counter is reloaded from it.
pub open spec fn envelope_step_spec(ch: Channel, nrx2: u8) -> Channel {
    if ch.envelope_counter == 0 {
        let step = nrx2 & 0x07;
        let v = ch.envelope_value;
        let value = if step == 0 {
            v
        } else if nrx2 & 0x08 == 0 {
            if v > 0 {
                (v - 1) as u8
            } else {
                v
            }
        } else if v < 15 {
            (v + 1) as u8
        } else {
            v
        };
        Channel { envelope_value: value, envelope_counter: step, ..ch }
    } else {
        Channel { envelope_counter: (ch.envelope_counter - 1) as u8, ..ch }
    }
}

/// The 8-step duty waveform that `NRx1[7:6]` selects.
pub open spec fn duty_spec(nrx1: u8) -> u8 {
    let d = nrx1 >> 6;
    if d == 0 {
        0x01
    } else if d == 1 {
        0x81
    } else if d == 2 {
        0x87
    } else {
        0x7E
    }
}

/// The sample of a channel at output level `level` (0 to 15), or the
/// silent level when the channel is disabled.
pub open spec fn level_spec(enabled: bool, level: int) -> i32 {
    if enabled {
        (SILENT_LEVEL - 2 * level) as i32
    } else {
        (-SILENT_LEVEL) as i32
    }
}

/// A pulse-channel cycle: the frequency timer counts down; when it has run
/// out it is reloaded, the waveform advances one of eight steps and the
/// sample is taken from the duty waveform and the volume.
pub open spec fn pulse_step_spec(ch: Channel, nrx1: u8, nrx3: u8, nrx4: u8) -> Channel {
    if ch.frequency_timer != 0 {
        Channel { frequency_timer: (ch.frequency_timer - 1) as u16, ..ch }
    } else {
        let pos = ((ch.waveform_position + 1) % 8) as u8;
        let bit = (duty_spec(nrx1) >> pos) & 1;
        Channel {
            frequency_timer: period_spec(nrx3, nrx4, false),
            waveform_position: pos,
            sample: level_spec(
                ch.output_enabled,
                if bit == 1 {
                    ch.envelope_value as int
                } else {
                    0
                },
            ),
            ..ch
        }
    }
}

/// Sample `pos` (0 to 31) of the wave table at `0xFF30..0xFF40`, high nibble
/// first.
pub open spec fn wave_sample_spec(bytes: Seq<u8>, pos: u8) -> u8 {
    let b = bytes[0xFF30 + pos / 2];
    if pos % 2 == 0 {
        b >> 4
    } else {
        b & 0x0F
    }
}

/// A wave-channel cycle: like a pulse channel with a halved period, 32
/// steps, and the sample read from the wave table.
pub open spec fn wave_step_spec(ch: Channel, nrx3: u8, nrx4: u8, bytes: Seq<u8>) -> Channel {
    if ch.frequency_timer != 0 {
        Channel { frequency_timer: (ch.frequency_timer - 1) as u16, ..ch }
    } else {
        let pos = ((ch.waveform_position + 1) % 32) as u8;
        Channel {
            frequency_timer: period_spec(nrx3, nrx4, true),
            waveform_position: pos,
            sample: level_spec(ch.output_enabled, wave_sample_spec(bytes, pos) as int),
            ..ch
        }
    }
}

/// The machine cycles between two shifts of the noise register that NR43
/// selects: divisor code `NR43[2:0]` and shift `NR43[7:4]`.
pub open spec fn noise_period_spec(nr43: u8) -> u32 {
    let code = nr43 & 0x07;
    let divisor: u32 = if code == 0 {
        2
    } else {
        (code * 4) as u32
    };
    divisor << ((nr43 >> 4) as u32)
}

/// A noise-channel cycle on the channel, its shift register and its shift
/// countdown: the countdown runs down, and when it has run out the register
/// shifts and the countdown is reloaded; the sample follows the output bit.
pub open spec fn noise_step_spec(ch: Channel, lfsr: u16, timer: u32, nr43: u8) -> (Channel, u16, u32) {
    let (l, t) = if timer != 0 {
        (lfsr, (timer - 1) as u32)
    } else {
        (lfsr_shift_spec(lfsr, nr43), noise_period_spec(nr43))
    };
    let level = if noise_bit_spec(l) == 1 {
        ch.envelope_value as int
    } else {
        0
    };
    (Channel { sample: level_spec(ch.output_enabled, level), ..ch }, l, t)
}

/// A channel whose sample and volume are in range.
pub open spec fn channel_wf(ch: Channel) -> bool {
    &&& -SILENT_LEVEL <= ch.sample <= SILENT_LEVEL
    &&& ch.envelope_value <= 15
    &&& ch.waveform_position < 32
}

/// The noise register after one shift: bit 0 XOR bit 1 enters at bit 14, and
/// also at bit 6 in 7-stage mode (NR43 bit 3).
pub open spec fn lfsr_shift_spec(lfsr: u16, nr43: u8) -> u16 {
    let x = (lfsr ^ (lfsr >> 1)) & 1;
    let l = (lfsr >> 1) | (x << 14);
    if nr43 & 0x08 != 0 {
        (l & !0x40u16) | (x << 6)
    } else {
        l
    }
}

/// The output bit of the noise register: bit 0 inverted.
pub open spec fn noise_bit_spec(lfsr: u16) -> int {
    if lfsr & 1 == 0 {
        1
    } else {
        0
    }
}

fn period(nrx3: u8, nrx4: u8, wave: bool) -> (r: u16)
    ensures
        r == period_spec(nrx3, nrx4, wave),
{
    assert(nrx4 & 0x07 <= 7) by (bit_vector);
    let p: u16 = 2048 - ((nrx4 & 0x07) as u16 * 256 + nrx3 as u16);
    if wave {
        p / 2
    } else {
        p
    }
}

impl Channel {
    pub open spec fn new_spec() -> Channel {
        Channel {
            output_enabled: false,
            length_counter: 0,
            envelope_counter: 0,
            envelope_value: 0,
            frequency_timer: 0,
            waveform_position: 0,
            sample: 0,
        }
    }

    pub fn new() -> (r: Channel)
        ensures
            r == Channel::new_spec(),
    {
        Channel {
            output_enabled: false,
            length_counter: 0,
            envelope_counter: 0,
            envelope_value: 0,
            frequency_timer: 0,
            waveform_position: 0,
            sample: 0,
        }
    }

    pub fn trigger(self, nrx2: u8, nrx3: u8, nrx4: u8, wave: bool) -> (r: Channel)
        ensures
            r == trigger_spec(self, nrx2, nrx3, nrx4, wave),
            channel_wf(self) ==> channel_wf(r),
    {
        let length_counter = if self.length_counter == 0 {
            if wave {
                256
            } else {
                64
            }
        } else {
            self.length_counter
        };
        Channel {
            output_enabled: true,
            length_counter,
            frequency_timer: period(nrx3, nrx4, wave),
            envelope_counter: nrx2 & 0x07,
            envelope_value: {
                assert(nrx2 >> 4 <= 15) by (bit_vector);
                nrx2 >> 4
            },
            ..self
        }
    }

    pub fn length_step(self, nrx4: u8) -> (r: Channel)
        ensures
            r == length_step_spec(self, nrx4),
            channel_wf(self) ==> channel_wf(r),
    {
        if nrx4 & 0x40 != 0 && self.length_counter > 0 {
            let l = self.length_counter - 1;
            Channel { length_counter: l, output_enabled: self.output_enabled && l != 0, ..self }
        } else {
            self
        }
    }

    pub fn envelope_step(self, nrx2: u8) -> (r: Channel)
        ensures
            r == envelope_step_spec(self, nrx2),
            channel_wf(self) ==> channel_wf(r),
    {
        if self.envelope_counter == 0 {
            let step = nrx2 & 0x07;
            let v = self.envelope_value;
            let value = if step == 0 {
                v
            } else if nrx2 & 0x08 == 0 {
                if v > 0 {
                    v - 1
                } else {
                    v
                }
            } else if v < 15 {
                v + 1
            } else {
                v
            };
            Channel { envelope_value: value, envelope_counter: step, ..self }
        } else {
            Channel { envelope_counter: self.envelope_counter - 1, ..self }
        }
    }

    pub fn pulse_step(self, nrx1: u8, nrx3: u8, nrx4: u8) -> (r: Channel)
        ensures
            r == pulse_step_spec(self, nrx1, nrx3, nrx4),
            channel_wf(self) ==> channel_wf(r),
    {
        if self.frequency_timer != 0 {
            Channel { frequency_timer: self.frequency_timer - 1, ..self }
        } else {
            let pos = ((self.waveform_position as u16 + 1) % 8) as u8;
            let duty: u8 = match nrx1 >> 6 {
                0 => 0x01,
                1 => 0x81,
                2 => 0x87,
                _ => 0x7E,
            };
            assert(pos < 8);
            let bit = (duty >> pos) & 1;
            assert((duty >> pos) & 1 <= 1) by (bit_vector);
            let sample = if self.output_enabled {
                SILENT_LEVEL - 2 * if bit == 1 {
                    self.envelope_value as i32
                } else {
                    0
                }
            } else {
                -SILENT_LEVEL
            };
            Channel { frequency_timer: period(nrx3, nrx4, false), waveform_position: pos, sample, ..self }
        }
    }

    pub fn wave_step(self, nrx3: u8, nrx4: u8, mem: &Memory) -> (r: Channel)
        requires
            mem.wf(),
        ensures
            r == wave_step_spec(self, nrx3, nrx4, mem@.bytes),
            channel_wf(self) ==> channel_wf(r),
    {
        if self.frequency_timer != 0 {
            Channel { frequency_timer: self.frequency_timer - 1, ..self }
        } else {
            let pos = ((self.waveform_position as u16 + 1) % 32) as u8;
            let b = mem.get(0xFF30 + (pos / 2) as u16);
            let value = if pos % 2 == 0 {
                b >> 4
            } else {
                b & 0x0F
            };
            assert(b >> 4 <= 15 && b & 0x0F <= 15) by (bit_vector);
            let sample = if self.output_enabled {
                SILENT_LEVEL - 2 * value as i32
            } else {
                -SILENT_LEVEL
            };
            Channel { frequency_timer: period(nrx3, nrx4, true), waveform_position: pos, sample, ..self }
        }
    }

    pub fn noise_step(self, lfsr: u16, timer: u32, nr43: u8) -> (r: (Channel, u16, u32))
        ensures
            r == noise_step_spec(self, lfsr, timer, nr43),
            channel_wf(self) ==> channel_wf(r.0),
    {
        let (l, t) = if timer != 0 {
            (lfsr, timer - 1)
        } else {
            let x = (lfsr ^ (lfsr >> 1)) & 1;
            let shifted = (lfsr >> 1) | (x << 14);
            let l = if nr43 & 0x08 != 0 {
                (shifted & !0x40u16) | (x << 6)
            } else {
                shifted
            };
            let code = nr43 & 0x07;
            assert(code <= 7 && nr43 >> 4 <= 15) by (bit_vector)
                requires
                    code == nr43 & 0x07,
            ;
            let divisor: u32 = if code == 0 {
                2
            } else {
                code as u32 * 4
            };
            (l, divisor << ((nr43 >> 4) as u32))
        };
        let sample = if self.output_enabled {
            if l & 1 == 0 {
                SILENT_LEVEL - 2 * self.envelope_value as i32
            } else {
                SILENT_LEVEL
            }
        } else {
            -SILENT_LEVEL
        };
        (Channel { sample, ..self }, l, t)
    }
}

/// What the audio unit holds.
pub struct AudioView {
    pub channels: Seq<Channel>,
    pub sample_buffer: Seq<i32>,
    pub sample_buffer_index: int,
    pub decimation_timer: u8,
    pub frame_timer: u16,
    pub frame_step: u8,
    pub lfsr: u16,
    pub noise_timer: u32,
}

/// The register address of register `n` of channel `i`, as an I/O offset.
pub open spec fn io_offset(i: int, n: int) -> int {
    nr_spec(i, n) - 0xFF00
}

/// Handles a write of NRx4 of channel `i`: the flag is cleared, and bit 7
/// triggers the channel (and reseeds the noise register).
pub open spec fn trigger_one(v: AudioView, bytes: Seq<u8>, written: Seq<bool>, i: int) -> (
    AudioView,
    Seq<bool>,
) {
    if written[io_offset(i, 4)] {
        let w = written.update(io_offset(i, 4), false);
        let nrx4 = bytes[nr_spec(i, 4) as int];
        if nrx4 & 0x80 != 0 {
            let ch = trigger_spec(
                v.channels[i],
                bytes[nr_spec(i, 2) as int],
                bytes[nr_spec(i, 3) as int],
                nrx4,
                i == 2,
            );
            (
                AudioView {
                    channels: v.channels.update(i, ch),
                    lfsr: if i == 3 {
                        0x7FFF
                    } else {
                        v.lfsr
                    },
                    ..v
                },
                w,
            )
        } else {
            (v, w)
        }
    } else {
        (v, written)
    }
}

pub open spec fn triggers_upto(v: AudioView, bytes: Seq<u8>, written: Seq<bool>, n: nat) -> (
    AudioView,
    Seq<bool>,
)
    decreases n,
{
    if n == 0 {
        (v, written)
    } else {
        let p = triggers_upto(v, bytes, written, (n - 1) as nat);
        trigger_one(p.0, bytes, p.1, n - 1)
    }
}

/// Handles a write of NRx1 of channel `i`: the flag is cleared and the
/// length counter is loaded.
pub open spec fn length_one(v: AudioView, bytes: Seq<u8>, written: Seq<bool>, i: int) -> (
    AudioView,
    Seq<bool>,
) {
    if written[io_offset(i, 1)] {
        let l = length_load_spec(bytes[nr_spec(i, 1) as int], i == 2);
        (
            AudioView {
                channels: v.channels.update(i, Channel { length_counter: l, ..v.channels[i] }),
                ..v
            },
            written.update(io_offset(i, 1), false),
        )
    } else {
        (v, written)
    }
}

pub open spec fn lengths_upto(v: AudioView, bytes: Seq<u8>, written: Seq<bool>, n: nat) -> (
    AudioView,
    Seq<bool>,
)
    decreases n,
{
    if n == 0 {
        (v, written)
    } else {
        let p = lengths_upto(v, bytes, written, (n - 1) as nat);
        length_one(p.0, bytes, p.1, n - 1)
    }
}

/// The 512 Hz frame sequencer: every 2048 cycles it takes one of eight
/// steps; even steps clock the length counters, step 7 the envelopes of
/// channels 0, 1 and 3.
pub open spec fn frame_spec(v: AudioView, bytes: Seq<u8>) -> AudioView {
    if v.frame_timer == 0 {
        let c = v.channels;
        let channels = if v.frame_step % 2 == 0 {
            Seq::new(4, |i: int| length_step_spec(c[i], bytes[nr_spec(i, 4) as int]))
        } else if v.frame_step == 7 {
            Seq::new(
                4,
                |i: int|
                    if i == 2 {
                        c[i]
                    } else {
                        envelope_step_spec(c[i], bytes[nr_spec(i, 2) as int])
                    },
            )
        } else {
            c
        };
        AudioView {
            channels,
            frame_timer: FRAME_TIMER_RELOAD,
            frame_step: ((v.frame_step + 1) % 8) as u8,
            ..v
        }
    } else {
        AudioView { frame_timer: (v.frame_timer - 1) as u16, ..v }
    }
}

/// One cycle of each channel generator.
pub open spec fn generate_spec(v: AudioView, bytes: Seq<u8>) -> AudioView {
    let c = v.channels;
    let c0 = pulse_step_spec(
        c[0],
        bytes[nr_spec(0, 1) as int],
        bytes[nr_spec(0, 3) as int],
        bytes[nr_spec(0, 4) as int],
    );
    let c1 = pulse_step_spec(
        c[1],
        bytes[nr_spec(1, 1) as int],
        bytes[nr_spec(1, 3) as int],
        bytes[nr_spec(1, 4) as int],
    );
    let c2 = wave_step_spec(c[2], bytes[nr_spec(2, 3) as int], bytes[nr_spec(2, 4) as int], bytes);
    let n = noise_step_spec(c[3], v.lfsr, v.noise_timer, bytes[IORegister::NR43 as int]);
    AudioView { channels: seq![c0, c1, c2, n.0], lfsr: n.1, noise_timer: n.2, ..v }
}

/// Every 16 cycles the sum of the four channel samples is appended to the
/// sample buffer; the result tells whether the buffer was completed.
pub open spec fn mix_spec(v: AudioView) -> (AudioView, bool) {
    if v.decimation_timer == 0 {
        let c = v.channels;
        let sum = (c[0].sample + c[1].sample + c[2].sample + c[3].sample) as i32;
        let full = v.sample_buffer_index == SAMPLE_BUFFER_SIZE - 1;
        (
            AudioView {
                sample_buffer: v.sample_buffer.update(v.sample_buffer_index, sum),
                sample_buffer_index: if full {
                    0
                } else {
                    v.sample_buffer_index + 1
                },
                decimation_timer: DECIMATION_RELOAD,
                ..v
            },
            full,
        )
    } else {
        (AudioView { decimation_timer: (v.decimation_timer - 1) as u8, ..v }, false)
    }
}

/// One machine cycle of the audio unit on its state, the bytes and the
/// write-watch flags: triggers, length loads, frame sequencer, generators,
/// mixing.
pub open spec fn audio_step(v: AudioView, bytes: Seq<u8>, written: Seq<bool>) -> (
    AudioView,
    Seq<bool>,
    bool,
) {
    let t = triggers_upto(v, bytes, written, 4);
    let l = lengths_upto(t.0, bytes, t.1, 4);
    let m = mix_spec(generate_spec(frame_spec(l.0, bytes), bytes));
    (m.0, l.1, m.1)
}

/// The state of a new audio unit: silent channels, an empty buffer, the
/// sequencers at their reload values and the noise register all ones.
pub open spec fn initial_audio() -> AudioView {
    AudioView {
        channels: seq![Channel::new_spec(), Channel::new_spec(), Channel::new_spec(), Channel::new_spec()],
        sample_buffer: Seq::new(SAMPLE_BUFFER_SIZE as nat, |i: int| 0i32),
        sample_buffer_index: 0,
        decimation_timer: DECIMATION_RELOAD,
        frame_timer: FRAME_TIMER_RELOAD,
        frame_step: 0,
        lfsr: 0x7FFF,
        noise_timer: 0,
    }
}

/// The audio processing unit: four channels, the frame sequencer, the noise
/// register and the sample buffer.
pub struct Audio {
    pub channels: Vec<Channel>,
    pub sample_buffer: Vec<i32>,
    pub sample_buffer_index: usize,
    pub decimation_timer: u8,
    pub frame_timer: u16,
    pub frame_step: u8,
    pub lfsr: u16,
    pub noise_timer: u32,
}

impl View for Audio {
    type V = AudioView;

    open spec fn view(&self) -> AudioView {
        AudioView {
            channels: self.channels@,
            sample_buffer: self.sample_buffer@,
            sample_buffer_index: self.sample_buffer_index as int,
            decimation_timer: self.decimation_timer,
            frame_timer: self.frame_timer,
            frame_step: self.frame_step,
            lfsr: self.lfsr,
            noise_timer: self.noise_timer,
        }
    }
}

pub open spec fn view_wf(v: AudioView) -> bool {
    &&& v.channels.len() == 4
    &&& forall|i: int| 0 <= i < 4 ==> channel_wf(#[trigger] v.channels[i])
    &&& v.sample_buffer.len() == SAMPLE_BUFFER_SIZE
    &&& 0 <= v.sample_buffer_index < SAMPLE_BUFFER_SIZE
    &&& v.frame_step < 8
}

impl Audio {
    pub open spec fn wf(&self) -> bool {
        view_wf(self@)
    }

    pub fn new() -> (r: Self)
        ensures
            r.wf(),
            r@ == initial_audio(),
    {
        let channels = vec![Channel::new(), Channel::new(), Channel::new(), Channel::new()];
        let r = Audio {
            channels,
            sample_buffer: vec![0i32; SAMPLE_BUFFER_SIZE],
            sample_buffer_index: 0,
            decimation_timer: DECIMATION_RELOAD,
            frame_timer: FRAME_TIMER_RELOAD,
            frame_step: 0,
            lfsr: 0x7FFF,
            noise_timer: 0,
        };
        assert(r@.channels =~= initial_audio().channels);
        assert(r@.sample_buffer =~= initial_audio().sample_buffer);
        r
    }

    /// A copy of the sample buffer.
    pub fn copy_samples(&self) -> (r: Vec<i32>)
        requires
            self.wf(),
        ensures
            r@ == self.sample_buffer@,
    {
        let mut r: Vec<i32> = Vec::new();
        let mut i: usize = 0;
        while i < self.sample_buffer.len()
            invariant
                i <= self.sample_buffer.len(),
                r@ == self.sample_buffer@.subrange(0, i as int),
            decreases self.sample_buffer.len() - i,
        {
            r.push(self.sample_buffer[i]);
            i = i + 1;
            assert(r@ =~= self.sample_buffer@.subrange(0, i as int));
        }
        assert(r@ =~= self.sample_buffer@);
        r
    }

    /// The completed sample buffer, in units of 1/1200.
    pub fn samples(&self) -> (r: &[i32])
        ensures
            r@ == self.sample_buffer@,
    {
        self.sample_buffer.as_slice()
    }

    /// Consumes the NRx4 write-watch flags and triggers the channels whose
    /// NRx4 was written with bit 7 set.
    fn trigger_channels(&mut self, mem: &mut Memory)
        requires
            old(self).wf(),
            old(mem).wf(),
        ensures
            final(self).wf(),
            final(mem).wf(),
            final(mem)@.bytes == old(mem)@.bytes,
            (final(self)@, final(mem)@.written) == triggers_upto(
                old(self)@,
                old(mem)@.bytes,
                old(mem)@.written,
                4,
            ),
    {
        let mut i: usize = 0;
        while i < 4
            invariant
                self.wf(),
                mem.wf(),
                i <= 4,
                mem@.bytes == old(mem)@.bytes,
                (self@, mem@.written) == triggers_upto(
                    old(self)@,
                    old(mem)@.bytes,
                    old(mem)@.written,
                    i as nat,
                ),
            decreases 4 - i,
        {
            let address: u16 = 0xFF14 + 5 * i as u16;
            let offset = (address - 0xFF00) as usize;
            if mem.io_written_to[offset] {
                mem.io_written_to.set(offset, false);
                let nrx4 = mem.get(address);
                if nrx4 & 0x80 != 0 {
                    let nrx2 = mem.get(address - 2);
                    let ch = self.channels[i].trigger(nrx2, mem.get(address - 1), nrx4, i == 2);
                    assert(nrx2 >> 4 <= 15) by (bit_vector);
                    self.channels.set(i, ch);
                    if i == 3 {
                        self.lfsr = 0x7FFF;
                    }
                }
            }
            i = i + 1;
        }
    }

    /// Consumes the NRx1 write-watch flags and loads the length counters of
    /// the channels whose NRx1 was written.
    fn reload_lengths(&mut self, mem: &mut Memory)
        requires
            old(self).wf(),
            old(mem).wf(),
        ensures
            final(self).wf(),
            final(mem).wf(),
            final(mem)@.bytes == old(mem)@.bytes,
            (final(self)@, final(mem)@.written) == lengths_upto(
                old(self)@,
                old(mem)@.bytes,
                old(mem)@.written,
                4,
            ),
    {
        let mut i: usize = 0;
        while i < 4
            invariant
                self.wf(),
                mem.wf(),
                i <= 4,
                mem@.bytes == old(mem)@.bytes,
                (self@, mem@.written) == lengths_upto(
                    old(self)@,
                    old(mem)@.bytes,
                    old(mem)@.written,
                    i as nat,
                ),
            decreases 4 - i,
        {
            let address: u16 = 0xFF11 + 5 * i as u16;
            let offset = (address - 0xFF00) as usize;
            if mem.io_written_to[offset] {
                mem.io_written_to.set(offset, false);
                let nrx1 = mem.get(address);
                let length: u16 = if i == 2 {
                    256 - nrx1 as u16
                } else {
                    assert(nrx1 & 0x3F <= 0x3F) by (bit_vector);
                    64 - (nrx1 & 0x3F) as u16
                };
                let ch = Channel { length_counter: length, ..self.channels[i] };
                self.channels.set(i, ch);
            }
            i = i + 1;
        }
    }

    /// The frame-sequencer part of a cycle.
    fn frame_sequencer(&mut self, mem: &Memory)
        requires
            old(self).wf(),
            mem.wf(),
        ensures
            final(self).wf(),
            final(self)@ == frame_spec(old(self)@, mem@.bytes),
    {
        if self.frame_timer == 0 {
            let ghost c = self.channels@;
            if self.frame_step % 2 == 0 {
                let c0 = self.channels[0].length_step(mem.get(0xFF14));
                self.channels.set(0, c0);
                let c1 = self.channels[1].length_step(mem.get(0xFF19));
                self.channels.set(1, c1);
                let c2 = self.channels[2].length_step(mem.get(0xFF1E));
                self.channels.set(2, c2);
                let c3 = self.channels[3].length_step(mem.get(0xFF23));
                self.channels.set(3, c3);
                assert(self.channels@ =~= Seq::new(
                    4,
                    |i: int| length_step_spec(c[i], mem@.bytes[nr_spec(i, 4) as int]),
                ));
            } else if self.frame_step == 7 {
                let c0 = self.channels[0].envelope_step(mem.get(0xFF12));
                self.channels.set(0, c0);
                let c1 = self.channels[1].envelope_step(mem.get(0xFF17));
                self.channels.set(1, c1);
                let c3 = self.channels[3].envelope_step(mem.get(0xFF21));
                self.channels.set(3, c3);
                assert(self.channels@ =~= Seq::new(
                    4,
                    |i: int|
                        if i == 2 {
                            c[i]
                        } else {
                            envelope_step_spec(c[i], mem@.bytes[nr_spec(i, 2) as int])
                        },
                ));
            }
            self.frame_timer = FRAME_TIMER_RELOAD;
            self.frame_step = (self.frame_step + 1) % 8;
        } else {
            self.frame_timer = self.frame_timer - 1;
        }
    }

    /// The generator part of a cycle: both pulse channels, the wave channel
    /// and the noise channel.
    fn generate(&mut self, mem: &Memory)
        requires
            old(self).wf(),
            mem.wf(),
        ensures
            final(self).wf(),
            final(self)@ == generate_spec(old(self)@, mem@.bytes),
    {
        let c0 = self.channels[0].pulse_step(mem.get(0xFF11), mem.get(0xFF13), mem.get(0xFF14));
        let c1 = self.channels[1].pulse_step(mem.get(0xFF16), mem.get(0xFF18), mem.get(0xFF19));
        let c2 = self.channels[2].wave_step(mem.get(0xFF1D), mem.get(0xFF1E), mem);
        let (c3, lfsr, timer) = self.channels[3].noise_step(
            self.lfsr,
            self.noise_timer,
            mem.get(IORegister::NR43),
        );
        self.channels.set(0, c0);
        self.channels.set(1, c1);
        self.channels.set(2, c2);
        self.channels.set(3, c3);
        self.lfsr = lfsr;
        self.noise_timer = timer;
        assert(self.channels@ =~= seq![c0, c1, c2, c3]);
    }

    /// The mixing part of a cycle; tells whether the buffer was completed.
    fn mix(&mut self) -> (r: bool)
        requires
            old(self).wf(),
        ensures
            final(self).wf(),
            (final(self)@, r) == mix_spec(old(self)@),
    {
        if self.decimation_timer == 0 {
            let sum = self.channels[0].sample + self.channels[1].sample + self.channels[2].sample
                + self.channels[3].sample;
            let index = self.sample_buffer_index;
            self.sample_buffer.set(index, sum);
            let full = index == SAMPLE_BUFFER_SIZE - 1;
            self.sample_buffer_index = if full {
                0
            } else {
                index + 1
            };
            self.decimation_timer = DECIMATION_RELOAD;
            full
        } else {
            self.decimation_timer = self.decimation_timer - 1;
            false
        }
    }

    /// One machine cycle of the audio unit. Returns true when the sample
    /// buffer has just been completed and is ready for the host.
    pub fn tick(&mut self, mem: &mut Memory) -> (r: bool)
        requires
            old(self).wf(),
            old(mem).wf(),
        ensures
            final(self).wf(),
            final(mem).wf(),
            final(mem)@.bytes == old(mem)@.bytes,
            (final(self)@, final(mem)@.written, r) == audio_step(
                old(self)@,
                old(mem)@.bytes,
                old(mem)@.written,
            ),
    {
        self.trigger_channels(mem);
        self.reload_lengths(mem);
        self.frame_sequencer(mem);
        self.generate(mem);
        self.mix()
    }
}

} // verus!
