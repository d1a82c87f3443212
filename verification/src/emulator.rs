use vstd::prelude::*;

use crate::cpu::{cycle_ends_as, Chip8, RANDOM_HIGH};
use crate::error::Chip8Error;
use crate::input::Keys;
use crate::machine::Machine;

verus! {

/// Side of the square that shows one pixel, in screen units.
pub const ZOOM: usize = 20;

/// Rows of pixels.
pub const HEIGHT: usize = 32;

/// Pixels in a row.
pub const WIDTH: usize = 64;

/// Nanoseconds between two ticks of the timers: the 60 Hz clock.
pub const TIMER_PERIOD: u64 = 16_000_000;

/// Nanoseconds that one instruction cycle is given unless another period
/// is set: 500 Hz.
pub const CYCLE_PERIOD: u64 = 2_000_000;

/// One pixel as the square that shows it.
#[derive(Debug, Clone, Copy, PartialEq, Eq, Structural)]
pub struct Tile {
    /// Left edge.
    pub x: usize,
    /// Top edge.
    pub y: usize,
    /// Width and height.
    pub side: usize,
    /// Foreground if lit, background if not.
    pub lit: bool,
}

/// The square for position `k` of a framebuffer.
pub open spec fn tile_at(fb: Seq<bool>, k: int) -> Tile {
    Tile {
        x: ((k % (WIDTH as int)) * ZOOM) as usize,
        y: ((k / (WIDTH as int)) * ZOOM) as usize,
        side: ZOOM,
        lit: fb[k],
    }
}

/// The squares that show a framebuffer, row by row.
pub open spec fn frame_tiles(fb: Seq<bool>) -> Seq<Tile> {
    Seq::new(fb.len(), |k: int| tile_at(fb, k))
}

/// The machine together with the clock that paces its timers and the
/// cadence of its instruction cycles.
pub struct Emulator {
    /// The machine.
    pub chip8: Chip8,
    /// Nanoseconds gone by since the last tick of the timers.
    acc_timer: u64,
    /// Nanoseconds that one instruction cycle is given.
    cycle_period: u64,
}

/// An emulator as plain mathematics.
pub struct EmulatorModel {
    pub machine: Machine,
    /// Nanoseconds gone by since the last tick of the timers.
    pub clock: nat,
    /// Nanoseconds that one instruction cycle is given.
    pub cycle_period: nat,
}

impl View for Emulator {
    type V = EmulatorModel;

    closed spec fn view(&self) -> EmulatorModel {
        EmulatorModel {
            machine: self.chip8@,
            clock: self.acc_timer as nat,
            cycle_period: self.cycle_period as nat,
        }
    }
}

impl EmulatorModel {
    /// `nanos` nanoseconds pass: the timers tick once for every period of
    /// the 60 Hz clock that ends, and the rest stays on the clock.
    pub open spec fn elapse(self, nanos: nat) -> EmulatorModel {
        EmulatorModel {
            machine: self.machine.run_timers((self.clock + nanos) / (TIMER_PERIOD as nat)),
            clock: (self.clock + nanos) % (TIMER_PERIOD as nat),
            ..self
        }
    }

    /// The rest of the cycle period after a cycle that took `busy`
    /// nanoseconds, or nothing where the cycle took longer.
    pub open spec fn pause_after(self, busy: nat) -> nat {
        if busy <= self.cycle_period {
            (self.cycle_period - busy) as nat
        } else {
            0
        }
    }
}

impl Emulator {
    /// What holds of every emulator between calls.
    pub closed spec fn wf(&self) -> bool {
        self.chip8.wf() && self.acc_timer < TIMER_PERIOD
    }

    /// A well-formed emulator has a well-formed machine and less than one
    /// timer period on its clock.
    pub proof fn lemma_view_wf(&self)
        requires
            self.wf(),
        ensures
            self@.machine.wf(),
            self@.clock < TIMER_PERIOD,
    {
        self.chip8.lemma_view_wf();
    }

    /// A machine at power-on with its clock at zero, cycling at 500 Hz.
    pub fn new() -> (emulator: Emulator)
        ensures
            emulator.wf(),
            emulator@ == (EmulatorModel {
                machine: Machine::initial(),
                clock: 0,
                cycle_period: CYCLE_PERIOD as nat,
            }),
    {
        Emulator { chip8: Chip8::init(), acc_timer: 0, cycle_period: CYCLE_PERIOD }
    }

    /// Sets the cadence of the instruction cycles: one cycle every `nanos`
    /// nanoseconds.
    pub fn set_cycle_period(&mut self, nanos: u64)
        requires
            old(self).wf(),
        ensures
            final(self).wf(),
            final(self)@ == (EmulatorModel { cycle_period: nanos as nat, ..old(self)@ }),
    {
        self.cycle_period = nanos;
    }

    /// Runs one instruction cycle of the machine. The clock and the cadence
    /// stay.
    pub fn update(&mut self) -> (result: Result<(), Chip8Error>)
        requires
            old(self).wf(),
        ensures
            final(self).wf(),
            final(self)@.clock == old(self)@.clock,
            final(self)@.cycle_period == old(self)@.cycle_period,
            exists|random: u8|
                random < RANDOM_HIGH && #[trigger] cycle_ends_as(
                    old(self)@.machine,
                    random,
                    result,
                    final(self)@.machine,
                ),
            !old(self)@.machine.cycle_reads_random() ==> cycle_ends_as(
                old(self)@.machine,
                0,
                result,
                final(self)@.machine,
            ),
    {
        self.chip8.cycle()
    }

    /// Lets `nanos` nanoseconds pass. The timers tick once for every
    /// period of the 60 Hz clock that ends within them, never more.
    pub fn elapse(&mut self, nanos: u64)
        requires
            old(self).wf(),
        ensures
            final(self).wf(),
            final(self)@ == old(self)@.elapse(nanos as nat),
    {
        let whole = nanos / TIMER_PERIOD;
        let rest = nanos % TIMER_PERIOD;
        let carried = self.acc_timer + rest;
        let ticks = if carried >= TIMER_PERIOD {
            self.acc_timer = carried - TIMER_PERIOD;
            whole + 1
        } else {
            self.acc_timer = carried;
            whole
        };
        self.chip8.tick_timers(ticks);
    }

    /// How long to pause after a cycle that took `busy` nanoseconds, so
    /// that cycles follow each other at the set cadence: the rest of the
    /// cycle period, or nothing where the cycle took longer.
    pub fn pause_for(&self, busy: u64) -> (pause: u64)
        ensures
            pause == self@.pause_after(busy as nat),
    {
        if busy <= self.cycle_period {
            self.cycle_period - busy
        } else {
            0
        }
    }

    /// A physical key goes down.
    pub fn key_down_event(&mut self, key: Keys)
        requires
            old(self).wf(),
        ensures
            final(self).wf(),
            final(self)@ == (EmulatorModel {
                machine: old(self)@.machine.key_down(key.logical() as u8),
                ..old(self)@
            }),
    {
        let _ = self.chip8.key_down(key.index());
    }

    /// A physical key goes up.
    pub fn key_up_event(&mut self, key: Keys)
        requires
            old(self).wf(),
        ensures
            final(self).wf(),
            final(self)@ == (EmulatorModel {
                machine: old(self)@.machine.key_up(key.logical() as u8),
                ..old(self)@
            }),
    {
        let _ = self.chip8.key_up(key.index());
    }

    /// The frame to show, if the framebuffer changed since it was last
    /// shown: one square per pixel, row by row. Handing the frame out
    /// counts as showing it.
    pub fn draw(&mut self) -> (frame: Option<Vec<Tile>>)
        requires
            old(self).wf(),
        ensures
            final(self).wf(),
            old(self)@.machine.redraw ==> ({
                &&& frame matches Some(tiles)
                &&& tiles@ == frame_tiles(old(self)@.machine.framebuffer)
                &&& final(self)@ == (EmulatorModel {
                    machine: Machine { redraw: false, ..old(self)@.machine },
                    ..old(self)@
                })
            }),
            !old(self)@.machine.redraw ==> frame is None && final(self)@ == old(self)@,
    {
        if self.chip8.needs_redraw() == true {
            proof {
                self.chip8.lemma_view_wf();
            }
            let mut tiles: Vec<Tile> = Vec::new();
            let mut i: usize = 0;
            while i < HEIGHT
                invariant
                    i <= HEIGHT,
                    self.wf(),
                    self@ == old(self)@,
                    self@.machine.framebuffer.len() == 2048,
                    tiles@ == frame_tiles(self@.machine.framebuffer).take(i * 64),
                decreases HEIGHT - i,
            {
                let mut j: usize = 0;
                while j < WIDTH
                    invariant
                        j <= WIDTH,
                        i < HEIGHT,
                        self.wf(),
                        self@ == old(self)@,
                        self@.machine.framebuffer.len() == 2048,
                        tiles@ == frame_tiles(self@.machine.framebuffer).take(i * 64 + j),
                    decreases WIDTH - j,
                {
                    let lit = self.chip8.framebuffer()[i * WIDTH + j] == true;
                    tiles.push(Tile { x: j * ZOOM, y: i * ZOOM, side: ZOOM, lit });
                    j += 1;
                }
                i += 1;
            }
            self.chip8.frame_shown();
            Some(tiles)
        } else {
            None
        }
    }
}

} // verus!
