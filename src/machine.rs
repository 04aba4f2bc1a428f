use vstd::prelude::*;
use crate::audio::{Audio, AudioView, audio_step, initial_audio};
use crate::cpu::{CPU, CpuError, tick_spec};
use crate::memory::{MemView, Memory};
use crate::timer::{Timer, timer_step};
use crate::video::{TICKS_OAM, TICKS_PER_LINE, Video, blank_screen, video_step};

verus! {

/// Machine cycles in one frame.
pub const TICKS_PER_FRAME: u32 = 17556;

/// What the whole console holds: the bus, the CPU, the timer, the PPU's
/// countdowns and framebuffer, and the audio unit.
pub struct MachineView {
    pub mem: MemView,
    pub cpu: CPU,
    pub timer: Timer,
    pub mode_counter: u32,
    pub line_counter: u32,
    pub pixels: Seq<u8>,
    pub audio: AudioView,
}

/// One machine cycle: the timer, the PPU, the APU and the CPU tick in that
/// order on the shared bus. The result is whether the APU completed a
/// sample buffer, or the error that stopped the CPU.
#[verifier::opaque]
pub open spec fn machine_step_spec(v: MachineView) -> (MachineView, Result<bool, CpuError>) {
    let t = timer_step(v.timer, v.mem.bytes);
    let p = video_step(v.mode_counter, v.line_counter, v.pixels, t.1);
    let a = audio_step(v.audio, p.3, v.mem.written);
    let c = tick_spec(v.cpu, MemView { bytes: p.3, written: a.1 });
    (
        MachineView {
            mem: c.1,
            cpu: c.0,
            timer: t.0,
            mode_counter: p.0,
            line_counter: p.1,
            pixels: p.2,
            audio: a.0,
        },
        match c.2 {
            Ok(()) => Ok(a.2),
            Err(e) => Err(e),
        },
    )
}

/// `n` machine cycles from `v`, stopping at the first CPU error. The result
/// holds the sample buffers completed on the way, in order, or that error.
pub open spec fn run_spec(v: MachineView, n: nat) -> (MachineView, Result<Seq<Seq<i32>>, CpuError>)
    decreases n,
{
    if n == 0 {
        (v, Ok(Seq::empty()))
    } else {
        let p = run_spec(v, (n - 1) as nat);
        match p.1 {
            Err(e) => (p.0, Err(e)),
            Ok(buffers) => {
                let s = machine_step_spec(p.0);
                match s.1 {
                    Err(e) => (s.0, Err(e)),
                    Ok(full) => (
                        s.0,
                        Ok(
                            if full {
                                buffers.push(s.0.audio.sample_buffer)
                            } else {
                                buffers
                            },
                        ),
                    ),
                }
            },
        }
    }
}

/// Once a run has stopped on an error, more cycles change nothing.
proof fn lemma_run_stops(v: MachineView, k: nat, m: nat)
    requires
        k <= m,
        run_spec(v, k).1 is Err,
    ensures
        run_spec(v, m) == run_spec(v, k),
    decreases m - k,
{
    if k < m {
        lemma_run_stops(v, k, (m - 1) as nat);
    }
}

/// The whole console: the bus and the four subsystems that share it.
pub struct Machine {
    pub mem: Memory,
    pub cpu: CPU,
    pub timer: Timer,
    pub video: Video,
    pub audio: Audio,
}

impl View for Machine {
    type V = MachineView;

    open spec fn view(&self) -> MachineView {
        MachineView {
            mem: self.mem@,
            cpu: self.cpu,
            timer: self.timer,
            mode_counter: self.video.mode_counter,
            line_counter: self.video.line_counter,
            pixels: self.video.pixel_data@,
            audio: self.audio@,
        }
    }
}

impl Machine {
    pub open spec fn wf(&self) -> bool {
        self.mem.wf() && self.timer.wf() && self.video.wf() && self.audio.wf()
    }

    /// A machine around `mem`, with every subsystem in its initial state.
    pub fn new(mem: Memory) -> (r: Self)
        requires
            mem.wf(),
        ensures
            r.wf(),
            r.mem == mem,
            r.cpu == CPU::new_spec(),
            r.timer == (Timer { div_counter: 0, timer_counter: 0 }),
            r.video.mode_counter == TICKS_OAM,
            r.video.line_counter == TICKS_PER_LINE,
            r.video.pixel_data@ == blank_screen(),
            r.audio@ == initial_audio(),
    {
        Machine { mem, cpu: CPU::new(), timer: Timer::new(), video: Video::new(), audio: Audio::new() }
    }

    /// One machine cycle: timer, PPU, APU and CPU tick in that order. Returns
    /// whether the audio unit completed a sample buffer.
    pub fn step(&mut self) -> (r: Result<bool, CpuError>)
        requires
            old(self).wf(),
        ensures
            final(self).wf(),
            (final(self)@, r) == machine_step_spec(old(self)@),
    {
        proof {
            reveal(machine_step_spec);
        }
        let _ = self.timer.tick(&mut self.mem);
        let _ = self.video.tick(&mut self.mem);
        let full = self.audio.tick(&mut self.mem);
        match self.cpu.tick(&mut self.mem) {
            Ok(()) => Ok(full),
            Err(e) => Err(e),
        }
    }

    /// One frame: 17,556 machine cycles. Returns the sample buffers that the
    /// audio unit completed during the frame, in order, or the error that
    /// stopped the CPU, in which case the frame ends with that cycle.
    pub fn run_frame(&mut self) -> (r: Result<Vec<Vec<i32>>, CpuError>)
        requires
            old(self).wf(),
        ensures
            final(self).wf(),
            final(self)@ == run_spec(old(self)@, TICKS_PER_FRAME as nat).0,
            match r {
                Ok(buffers) => run_spec(old(self)@, TICKS_PER_FRAME as nat).1 == Ok::<
                    Seq<Seq<i32>>,
                    CpuError,
                >(buffers@.map_values(|b: Vec<i32>| b@)),
                Err(e) => run_spec(old(self)@, TICKS_PER_FRAME as nat).1 == Err::<
                    Seq<Seq<i32>>,
                    CpuError,
                >(e),
            },
    {
        let mut buffers: Vec<Vec<i32>> = Vec::new();
        let mut n: u32 = 0;
        assert(buffers@.map_values(|b: Vec<i32>| b@) =~= Seq::<Seq<i32>>::empty());
        while n < TICKS_PER_FRAME
            invariant
                self.wf(),
                n <= TICKS_PER_FRAME,
                run_spec(old(self)@, n as nat) == (
                    self@,
                    Ok::<Seq<Seq<i32>>, CpuError>(buffers@.map_values(|b: Vec<i32>| b@)),
                ),
            decreases TICKS_PER_FRAME - n,
        {
            let ghost prev = buffers@.map_values(|b: Vec<i32>| b@);
            match self.step() {
                Ok(full) => {
                    if full {
                        let copy = self.audio.copy_samples();
                        buffers.push(copy);
                        assert(buffers@.map_values(|b: Vec<i32>| b@) =~= prev.push(copy@));
                    }
                },
                Err(e) => {
                    proof {
                        lemma_run_stops(old(self)@, (n + 1) as nat, TICKS_PER_FRAME as nat);
                    }
                    return Err(e);
                },
            }
            n = n + 1;
        }
        Ok(buffers)
    }
}

} // verus!
