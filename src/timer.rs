use vstd::prelude::*;
use crate::cpu::wrap8;
use crate::memory::{IORegister, Memory, MEMORY_SIZE};

verus! {

/// Machine cycles between two increments of DIV.
pub const DIV_COUNTER_MAX: u32 = 64;

/// The TIMA period in machine cycles that `TAC[1:0]` selects.
pub open spec fn timer_period(speed: u8) -> u32 {
    if speed == 0 {
        256
    } else if speed == 1 {
        4
    } else if speed == 2 {
        16
    } else {
        64
    }
}

/// The divider and the programmable timer.
#[derive(Clone, Copy, Debug, PartialEq, Eq, Structural)]
pub struct Timer {
    /// Machine cycles left until DIV is next incremented.
    pub div_counter: u32,
    /// Machine cycles left until TIMA is next incremented; zero when the
    /// countdown has not started.
    pub timer_counter: u32,
}

impl Timer {
    /// The countdowns stay below their longest periods.
    pub open spec fn wf(&self) -> bool {
        self.div_counter < DIV_COUNTER_MAX && self.timer_counter < 256
    }
}

/// The timer and the bytes after one machine cycle.
pub open spec fn timer_step(t: Timer, bytes: Seq<u8>) -> (Timer, Seq<u8>) {
    let b1 = if t.div_counter == 0 {
        bytes.update(IORegister::DIV as int, wrap8(bytes[IORegister::DIV as int] + 1))
    } else {
        bytes
    };
    let div_counter = if t.div_counter == 0 {
        (DIV_COUNTER_MAX - 1) as u32
    } else {
        (t.div_counter - 1) as u32
    };
    if b1[IORegister::TAC as int] & 0x04 != 0 {
        let start = if t.timer_counter == 0 {
            timer_period(b1[IORegister::TAC as int] & 0x03)
        } else {
            t.timer_counter
        };
        let timer_counter = (start - 1) as u32;
        if timer_counter == 0 {
            let tima = b1[IORegister::TIMA as int];
            let b2 = if tima == 0xFF {
                b1.update(IORegister::IF as int, b1[IORegister::IF as int] | 0x04).update(
                    IORegister::TIMA as int,
                    b1[IORegister::TMA as int],
                )
            } else {
                b1.update(IORegister::TIMA as int, (tima + 1) as u8)
            };
            (Timer { div_counter, timer_counter }, b2)
        } else {
            (Timer { div_counter, timer_counter }, b1)
        }
    } else {
        (Timer { div_counter, ..t }, b1)
    }
}

/// The timer and the bytes after `n` machine cycles.
pub open spec fn timer_run(t: Timer, bytes: Seq<u8>, n: nat) -> (Timer, Seq<u8>)
    decreases n,
{
    if n == 0 {
        (t, bytes)
    } else {
        let s = timer_step(t, bytes);
        timer_run(s.0, s.1, (n - 1) as nat)
    }
}

fn timer_period_of(speed: u8) -> (r: u32)
    requires
        speed < 4,
    ensures
        r == timer_period(speed),
{
    match speed {
        0 => 256,
        1 => 4,
        2 => 16,
        _ => 64,
    }
}

impl Timer {
    pub fn new() -> (r: Self)
        ensures
            r == (Timer { div_counter: 0, timer_counter: 0 }),
            r.wf(),
    {
        Timer { div_counter: 0, timer_counter: 0 }
    }

    /// One machine cycle: DIV counts up every 64 cycles; while `TAC` bit 2
    /// is set, the countdown (reloaded from the selected period when found
    /// at zero) counts down, and when it reaches zero TIMA counts up; on
    /// overflow TIMA is reloaded from TMA and the timer interrupt requested.
    pub fn tick(&mut self, mem: &mut Memory) -> (r: Result<(), String>)
        requires
            old(self).wf(),
            old(mem).wf(),
        ensures
            r is Ok,
            final(self).wf(),
            final(mem).wf(),
            (*final(self), final(mem)@.bytes) == timer_step(*old(self), old(mem)@.bytes),
            final(mem)@.written == old(mem)@.written,
    {
        if self.div_counter == 0 {
            let div = mem.get(IORegister::DIV);
            mem.set(IORegister::DIV, div.wrapping_add(1));
            self.div_counter = DIV_COUNTER_MAX;
        }
        self.div_counter = self.div_counter - 1;

        let tac = mem.get(IORegister::TAC);
        if tac & 0x04 != 0 {
            if self.timer_counter == 0 {
                assert(tac & 0x03 < 4) by (bit_vector);
                self.timer_counter = timer_period_of(tac & 0x03);
            }
            self.timer_counter = self.timer_counter - 1;
            if self.timer_counter == 0 {
                let tima = mem.get(IORegister::TIMA);
                if tima == 0xFF {
                    let flags = mem.get(IORegister::IF);
                    mem.set(IORegister::IF, flags | 0x04);
                    let tma = mem.get(IORegister::TMA);
                    mem.set(IORegister::TIMA, tma);
                } else {
                    mem.set(IORegister::TIMA, tima + 1);
                }
            }
        }
        Ok(())
    }
}

/// Timer overflow: with TIMA at 0xFF and TAC at 0x05 (enabled, four-cycle
/// period) on a timer whose countdown has not started, as a new timer's,
/// five machine cycles later the timer interrupt is requested and TIMA
/// holds TMA.
pub proof fn lemma_timer_overflow(t: Timer, bytes: Seq<u8>)
    requires
        bytes.len() == MEMORY_SIZE,
        t.wf(),
        t.timer_counter == 0,
        bytes[IORegister::TIMA as int] == 0xFF,
        bytes[IORegister::TAC as int] == 0x05,
    ensures
        ({
            let s = timer_run(t, bytes, 5);
            &&& s.1[IORegister::IF as int] & 0x04 != 0
            &&& s.1[IORegister::TIMA as int] == s.1[IORegister::TMA as int]
        }),
{
    reveal_with_fuel(timer_run, 6);
    assert(0x05u8 & 0x04 != 0 && 0x05u8 & 0x03 == 1) by (bit_vector);
    assert forall|x: u8| #![auto] (x | 0x04) & 0x04 != 0 by {
        assert((x | 0x04) & 0x04 != 0) by (bit_vector);
    }
    let s1 = timer_step(t, bytes);
    let s2 = timer_step(s1.0, s1.1);
    let s3 = timer_step(s2.0, s2.1);
    let s4 = timer_step(s3.0, s3.1);
    let s5 = timer_step(s4.0, s4.1);
    assert(timer_run(t, bytes, 5) == s5);
}

} // verus!
