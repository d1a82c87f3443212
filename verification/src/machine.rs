use vstd::prelude::*;

use crate::display::{blit, collides, SCREEN_SIZE};
use crate::error::Chip8Error;
use crate::instruction::{spec_decode, Instruction};

verus! {

/// Bytes of addressable memory.
pub const MEMORY_SIZE: usize = 4096;

/// Where the font glyphs start.
pub const FONT_ADDR: u16 = 0x050;

/// Where a ROM is loaded and where execution starts.
pub const START_ADDR: u16 = 0x200;

/// Bytes in one instruction word.
pub const OPCODE_SIZE: u16 = 2;

/// General-purpose registers, `V0` to `VF`.
pub const REGISTER_COUNT: usize = 16;

/// Keys on the keypad.
pub const KEY_COUNT: usize = 16;

/// Return addresses that the call stack can hold.
pub const STACK_DEPTH: usize = 16;

/// Bytes in one font glyph.
pub const GLYPH_SIZE: u16 = 5;

/// Bytes in the font table.
pub const FONT_SIZE: usize = 80;

/// The largest ROM that fits between `START_ADDR` and the end of memory.
pub const MAX_ROM_SIZE: usize = 3584;

/// The register that instructions overwrite with carry, borrow and
/// collision flags.
pub const FLAG: u8 = 0xF;

/// The largest value the program counter can take: a jump to `V0 + nnn`
/// with both operands at their largest.
pub const PC_LIMIT: u16 = 0x10FE;

/// The sixteen glyphs `0` to `F`, five rows each, one byte per row.
pub open spec fn font_table() -> Seq<u8> {
    seq![
        0xF0u8, 0x90u8, 0x90u8, 0x90u8, 0xF0u8,
        0x20u8, 0x60u8, 0x20u8, 0x20u8, 0x70u8,
        0xF0u8, 0x10u8, 0xF0u8, 0x80u8, 0xF0u8,
        0xF0u8, 0x10u8, 0xF0u8, 0x10u8, 0xF0u8,
        0x90u8, 0x90u8, 0xF0u8, 0x10u8, 0x10u8,
        0xF0u8, 0x80u8, 0xF0u8, 0x10u8, 0xF0u8,
        0xF0u8, 0x80u8, 0xF0u8, 0x90u8, 0xF0u8,
        0xF0u8, 0x10u8, 0x20u8, 0x40u8, 0x40u8,
        0xF0u8, 0x90u8, 0xF0u8, 0x90u8, 0xF0u8,
        0xF0u8, 0x90u8, 0xF0u8, 0x10u8, 0xF0u8,
        0xF0u8, 0x90u8, 0xF0u8, 0x90u8, 0x90u8,
        0xE0u8, 0x90u8, 0xE0u8, 0x90u8, 0xE0u8,
        0xF0u8, 0x80u8, 0x80u8, 0x80u8, 0xF0u8,
        0xE0u8, 0x90u8, 0x90u8, 0x90u8, 0xE0u8,
        0xF0u8, 0x80u8, 0xF0u8, 0x80u8, 0xF0u8,
        0xF0u8, 0x80u8, 0xF0u8, 0x80u8, 0x80u8,
    ]
}

/// `memory` with `bytes` written over it from address `base` on.
pub open spec fn overlay(memory: Seq<u8>, base: int, bytes: Seq<u8>) -> Seq<u8> {
    Seq::new(
        memory.len(),
        |a: int|
            if base <= a < base + bytes.len() {
                bytes[a - base]
            } else {
                memory[a]
            },
    )
}

/// The three decimal digits of a byte, hundreds first.
pub open spec fn decimal_digits(v: u8) -> Seq<u8> {
    seq![v / 100, v / 10 % 10, v % 10]
}

/// The state of the virtual machine as plain mathematics.
#[verifier::ext_equal]
pub struct Machine {
    /// The instruction word that was fetched last.
    pub opcode: u16,
    /// 4096 bytes.
    pub memory: Seq<u8>,
    /// `V0` to `VF`.
    pub registers: Seq<u8>,
    /// The index register `I`.
    pub index: int,
    /// The program counter.
    pub pc: int,
    /// The addresses of the calls that have not returned yet, innermost
    /// last.
    pub stack: Seq<u16>,
    pub delay_timer: u8,
    pub sound_timer: u8,
    /// Which of the sixteen keys are down.
    pub keys: Seq<bool>,
    /// 64x32 pixels, row by row.
    pub framebuffer: Seq<bool>,
    /// Whether the framebuffer changed since it was last shown.
    pub redraw: bool,
    /// `Some(x)` while the machine is suspended until a key press, which
    /// `Vx` will receive.
    pub awaiting_key: Option<u8>,
}

impl Machine {
    /// What holds of every machine state.
    pub open spec fn wf(self) -> bool {
        &&& self.memory.len() == MEMORY_SIZE
        &&& self.registers.len() == REGISTER_COUNT
        &&& self.keys.len() == KEY_COUNT
        &&& self.framebuffer.len() == SCREEN_SIZE
        &&& self.stack.len() <= STACK_DEPTH
        &&& forall|i: int| 0 <= i < self.stack.len() ==> self.stack[i] + 1 < MEMORY_SIZE
        &&& 0 <= self.pc <= PC_LIMIT
        &&& 0 <= self.index <= 0xFFFF
        &&& (self.awaiting_key matches Some(x) ==> x < REGISTER_COUNT && self.pc + 1 < MEMORY_SIZE)
    }

    /// The machine at power-on: everything zero but the font in memory and
    /// the program counter at the ROM base.
    pub open spec fn initial() -> Machine {
        Machine {
            opcode: 0,
            memory: overlay(Seq::new(MEMORY_SIZE as nat, |a: int| 0u8), FONT_ADDR as int, font_table()),
            registers: Seq::new(REGISTER_COUNT as nat, |i: int| 0u8),
            index: 0,
            pc: START_ADDR as int,
            stack: Seq::empty(),
            delay_timer: 0,
            sound_timer: 0,
            keys: Seq::new(KEY_COUNT as nat, |i: int| false),
            framebuffer: Seq::new(SCREEN_SIZE as nat, |i: int| false),
            redraw: false,
            awaiting_key: None,
        }
    }

    /// The font written over its reserved region.
    pub open spec fn with_font(self) -> Machine {
        Machine { memory: overlay(self.memory, FONT_ADDR as int, font_table()), ..self }
    }

    /// A ROM written over memory from the ROM base on.
    pub open spec fn with_rom(self, bytes: Seq<u8>) -> Machine {
        Machine { memory: overlay(self.memory, START_ADDR as int, bytes), ..self }
    }

    /// Whether the two bytes of an instruction at the program counter lie
    /// inside memory.
    pub open spec fn pc_in_memory(self) -> bool {
        self.pc + 1 < MEMORY_SIZE
    }

    /// The big-endian word at the program counter.
    pub open spec fn word_at_pc(self) -> int {
        self.memory[self.pc] * 256 + self.memory[self.pc + 1]
    }

    /// Fetch: the word at the program counter becomes the current opcode.
    pub open spec fn fetch(self) -> Result<Machine, Chip8Error> {
        if !self.pc_in_memory() {
            Err(Chip8Error::OutOfBounds)
        } else {
            Ok(Machine { opcode: self.word_at_pc() as u16, ..self })
        }
    }

    /// The value of register `Vx`.
    pub open spec fn reg(self, x: u8) -> u8 {
        self.registers[x as int]
    }

    /// `Vx = v`.
    pub open spec fn set_reg(self, x: u8, v: u8) -> Machine {
        Machine { registers: self.registers.update(x as int, v), ..self }
    }

    /// The program counter moved past the current instruction.
    pub open spec fn advance(self) -> Machine {
        Machine { pc: self.pc + OPCODE_SIZE, ..self }
    }

    /// The program counter moved past the next instruction if `taken`.
    pub open spec fn skip_when(self, taken: bool) -> Machine {
        if taken {
            Machine { pc: self.pc + OPCODE_SIZE, ..self }
        } else {
            self
        }
    }

    /// `CLS`: every pixel unlit, the frame marked as changed.
    pub open spec fn clear_screen(self) -> Machine {
        Machine { framebuffer: Seq::new(SCREEN_SIZE as nat, |i: int| false), redraw: true, ..self }
    }

    /// `RET`, first half: the innermost call site leaves the stack and
    /// becomes the program counter.
    pub open spec fn pop_call(self) -> Machine {
        Machine { pc: self.stack.last() as int, stack: self.stack.drop_last(), ..self }
    }

    /// `JMP`.
    pub open spec fn jump(self, nnn: u16) -> Machine {
        Machine { pc: nnn as int, ..self }
    }

    /// `CALL`: the program counter goes onto the stack, then the jump.
    pub open spec fn call(self, nnn: u16) -> Machine {
        Machine { stack: self.stack.push(self.pc as u16), pc: nnn as int, ..self }
    }

    /// `ADD Vx, nn`: no flag is touched.
    pub open spec fn add_const(self, x: u8, nn: u8) -> Machine {
        self.set_reg(x, ((self.reg(x) + nn) % 256) as u8)
    }

    /// `LD Vx, Vy`.
    pub open spec fn mov(self, x: u8, y: u8) -> Machine {
        self.set_reg(x, self.reg(y))
    }

    /// `OR Vx, Vy`.
    pub open spec fn or(self, x: u8, y: u8) -> Machine {
        self.set_reg(x, self.reg(x) | self.reg(y))
    }

    /// `AND Vx, Vy`.
    pub open spec fn and(self, x: u8, y: u8) -> Machine {
        self.set_reg(x, self.reg(x) & self.reg(y))
    }

    /// `XOR Vx, Vy`.
    pub open spec fn xor(self, x: u8, y: u8) -> Machine {
        self.set_reg(x, self.reg(x) ^ self.reg(y))
    }

    /// `ADD Vx, Vy`: `VF` becomes the carry, then `Vx` the sum modulo 256.
    /// The flag is written first, so where `x` or `y` names `VF` the sum is
    /// taken over the flag.
    pub open spec fn add(self, x: u8, y: u8) -> Machine {
        let flagged = self.set_reg(
            FLAG,
            if self.reg(x) + self.reg(y) > 255 {
                1
            } else {
                0
            },
        );
        flagged.set_reg(x, ((flagged.reg(x) + flagged.reg(y)) % 256) as u8)
    }

    /// `SUB Vx, Vy`: `VF` becomes 1 unless the subtraction borrows, then
    /// `Vx` the difference modulo 256.
    pub open spec fn sub(self, x: u8, y: u8) -> Machine {
        let flagged = self.set_reg(
            FLAG,
            if self.reg(x) >= self.reg(y) {
                1
            } else {
                0
            },
        );
        flagged.set_reg(x, ((flagged.reg(x) - flagged.reg(y)) % 256) as u8)
    }

    /// `SHR Vx`: `VF` becomes the lowest bit of `Vx`, then `Vx` is halved.
    pub open spec fn shr(self, x: u8) -> Machine {
        let flagged = self.set_reg(FLAG, self.reg(x) % 2);
        flagged.set_reg(x, flagged.reg(x) / 2)
    }

    /// `SUBN Vx, Vy`: `VF` becomes 1 unless the subtraction borrows, then
    /// `Vx` becomes `Vy - Vx` modulo 256.
    pub open spec fn subn(self, x: u8, y: u8) -> Machine {
        let flagged = self.set_reg(
            FLAG,
            if self.reg(y) >= self.reg(x) {
                1
            } else {
                0
            },
        );
        flagged.set_reg(x, ((flagged.reg(y) - flagged.reg(x)) % 256) as u8)
    }

    /// `SHL Vx`: `VF` becomes the highest bit of `Vx`, then `Vx` is doubled
    /// modulo 256.
    pub open spec fn shl(self, x: u8) -> Machine {
        let flagged = self.set_reg(FLAG, self.reg(x) / 128);
        flagged.set_reg(x, ((flagged.reg(x) * 2) % 256) as u8)
    }

    /// `LD I, nnn`.
    pub open spec fn set_index(self, nnn: u16) -> Machine {
        Machine { index: nnn as int, ..self }
    }

    /// `JMP V0 + nnn`.
    pub open spec fn jump_v0(self, nnn: u16) -> Machine {
        Machine { pc: self.reg(0) + nnn, ..self }
    }

    /// `RND Vx, nn` for a given random byte.
    pub open spec fn rnd(self, x: u8, nn: u8, random: u8) -> Machine {
        self.set_reg(x, random & nn)
    }

    /// The `n` bytes from `I` on: the rows of the sprite to draw.
    pub open spec fn sprite(self, n: u8) -> Seq<u8> {
        Seq::new(n as nat, |row: int| self.memory[self.index + row])
    }

    /// `DRW Vx, Vy, n`: the sprite at `I` is XORed onto the framebuffer at
    /// (`Vx`, `Vy`), `VF` tells whether a lit pixel was hit, and the frame
    /// is marked as changed. The coordinates are read before `VF` is
    /// written.
    pub open spec fn draw(self, x: u8, y: u8, n: u8) -> Machine {
        let rows = self.sprite(n);
        let vx = self.reg(x) as int;
        let vy = self.reg(y) as int;
        Machine {
            framebuffer: blit(self.framebuffer, rows, vx, vy),
            registers: self.registers.update(
                FLAG as int,
                if collides(self.framebuffer, rows, vx, vy) {
                    1u8
                } else {
                    0u8
                },
            ),
            redraw: true,
            ..self
        }
    }

    /// Whether the key that `Vx` names is down.
    pub open spec fn key_is_down(self, x: u8) -> bool {
        self.keys[self.reg(x) as int]
    }

    /// `LD Vx, DT`.
    pub open spec fn load_delay(self, x: u8) -> Machine {
        self.set_reg(x, self.delay_timer)
    }

    /// `LD Vx, K`: the machine suspends until a key is pressed.
    pub open spec fn wait_key(self, x: u8) -> Machine {
        Machine { awaiting_key: Some(x), ..self }
    }

    /// `LD DT, Vx`.
    pub open spec fn set_delay(self, x: u8) -> Machine {
        Machine { delay_timer: self.reg(x), ..self }
    }

    /// `LD ST, Vx`.
    pub open spec fn set_sound(self, x: u8) -> Machine {
        Machine { sound_timer: self.reg(x), ..self }
    }

    /// `ADD I, Vx`, without wrapping.
    pub open spec fn add_index(self, x: u8) -> Machine {
        Machine { index: self.index + self.reg(x), ..self }
    }

    /// `LD F, Vx`: `I` points at the glyph for `Vx`.
    pub open spec fn glyph(self, x: u8) -> Machine {
        Machine { index: FONT_ADDR + self.reg(x) * GLYPH_SIZE, ..self }
    }

    /// `LD B, Vx`: the decimal digits of `Vx` at `I`, `I+1`, `I+2`.
    pub open spec fn bcd(self, x: u8) -> Machine {
        Machine { memory: overlay(self.memory, self.index, decimal_digits(self.reg(x))), ..self }
    }

    /// `LD [I], Vx`: `V0..=Vx` at `I..`.
    pub open spec fn reg_dump(self, x: u8) -> Machine {
        Machine { memory: overlay(self.memory, self.index, self.registers.take(x + 1)), ..self }
    }

    /// `LD Vx, [I]`: `V0..=Vx` from `I..`.
    pub open spec fn reg_load(self, x: u8) -> Machine {
        Machine {
            registers: Seq::new(
                REGISTER_COUNT as nat,
                |i: int|
                    if i <= x {
                        self.memory[self.index + i]
                    } else {
                        self.registers[i]
                    },
            ),
            ..self
        }
    }

    /// What one instruction does to the machine, for a given random byte
    /// (which `RND` alone reads). An instruction can only run from inside
    /// memory. Every instruction but the four jumps and `LD Vx, K` leaves
    /// the program counter one instruction further, a taken skip two.
    pub open spec fn step(self, instr: Instruction, random: u8) -> Result<Machine, Chip8Error> {
        if !self.pc_in_memory() {
            Err(Chip8Error::OutOfBounds)
        } else {
            match instr {
                Instruction::Cls => Ok(self.clear_screen().advance()),
                Instruction::Ret => if self.stack.len() == 0 {
                    Err(Chip8Error::StackUnderflow)
                } else {
                    Ok(self.pop_call().advance())
                },
                Instruction::Jmp { nnn } => Ok(self.jump(nnn)),
                Instruction::Call { nnn } => if self.stack.len() >= STACK_DEPTH {
                    Err(Chip8Error::StackOverflow)
                } else {
                    Ok(self.call(nnn))
                },
                Instruction::SkeqConst { x, nn } => Ok(
                    self.skip_when(self.reg(x) == nn).advance(),
                ),
                Instruction::SkneConst { x, nn } => Ok(
                    self.skip_when(self.reg(x) != nn).advance(),
                ),
                Instruction::SkeqReg { x, y } => Ok(
                    self.skip_when(self.reg(x) == self.reg(y)).advance(),
                ),
                Instruction::LdConst { x, nn } => Ok(self.set_reg(x, nn).advance()),
                Instruction::AddConst { x, nn } => Ok(self.add_const(x, nn).advance()),
                Instruction::Mov { x, y } => Ok(self.mov(x, y).advance()),
                Instruction::Or { x, y } => Ok(self.or(x, y).advance()),
                Instruction::And { x, y } => Ok(self.and(x, y).advance()),
                Instruction::Xor { x, y } => Ok(self.xor(x, y).advance()),
                Instruction::Add { x, y } => Ok(self.add(x, y).advance()),
                Instruction::Sub { x, y } => Ok(self.sub(x, y).advance()),
                Instruction::Shr { x } => Ok(self.shr(x).advance()),
                Instruction::Subn { x, y } => Ok(self.subn(x, y).advance()),
                Instruction::Shl { x } => Ok(self.shl(x).advance()),
                Instruction::SkneReg { x, y } => Ok(
                    self.skip_when(self.reg(x) != self.reg(y)).advance(),
                ),
                Instruction::LdI { nnn } => Ok(self.set_index(nnn).advance()),
                Instruction::JmpV0 { nnn } => Ok(self.jump_v0(nnn)),
                Instruction::Rnd { x, nn } => Ok(self.rnd(x, nn, random).advance()),
                Instruction::Draw { x, y, n } => if n > 0 && self.index + n > MEMORY_SIZE {
                    Err(Chip8Error::OutOfBounds)
                } else {
                    Ok(self.draw(x, y, n).advance())
                },
                Instruction::SkeqKey { x } => if self.reg(x) >= KEY_COUNT {
                    Err(Chip8Error::OutOfBounds)
                } else {
                    Ok(self.skip_when(self.key_is_down(x)).advance())
                },
                Instruction::SkneKey { x } => if self.reg(x) >= KEY_COUNT {
                    Err(Chip8Error::OutOfBounds)
                } else {
                    Ok(self.skip_when(!self.key_is_down(x)).advance())
                },
                Instruction::LdDelay { x } => Ok(self.load_delay(x).advance()),
                Instruction::WaitKey { x } => Ok(self.wait_key(x)),
                Instruction::SetDelay { x } => Ok(self.set_delay(x).advance()),
                Instruction::SetSound { x } => Ok(self.set_sound(x).advance()),
                Instruction::AddI { x } => if self.index + self.reg(x) > 0xFFFF {
                    Err(Chip8Error::OutOfBounds)
                } else {
                    Ok(self.add_index(x).advance())
                },
                Instruction::Font { x } => Ok(self.glyph(x).advance()),
                Instruction::Bcd { x } => if self.index + 2 >= MEMORY_SIZE {
                    Err(Chip8Error::OutOfBounds)
                } else {
                    Ok(self.bcd(x).advance())
                },
                Instruction::RegDump { x } => if self.index + x >= MEMORY_SIZE {
                    Err(Chip8Error::OutOfBounds)
                } else {
                    Ok(self.reg_dump(x).advance())
                },
                Instruction::RegLoad { x } => if self.index + x >= MEMORY_SIZE {
                    Err(Chip8Error::OutOfBounds)
                } else {
                    Ok(self.reg_load(x).advance())
                },
            }
        }
    }

    /// Decode and execute the current opcode. A machine that awaits a key
    /// stays as it is.
    pub open spec fn execute(self, random: u8) -> Result<Machine, Chip8Error> {
        if self.awaiting_key is Some {
            Ok(self)
        } else {
            match spec_decode(self.opcode) {
                None => Err(Chip8Error::UnknownOpcode(self.opcode, self.pc as u16)),
                Some(instr) => self.step(instr, random),
            }
        }
    }

    /// Whether executing the current opcode reads a random byte.
    pub open spec fn reads_random(self) -> bool {
        &&& self.awaiting_key is None
        &&& spec_decode(self.opcode) matches Some(instr)
        &&& instr is Rnd
    }

    /// Whether a whole cycle from here reads a random byte.
    pub open spec fn cycle_reads_random(self) -> bool {
        &&& self.awaiting_key is None
        &&& self.fetch() matches Ok(fetched)
        &&& fetched.reads_random()
    }

    /// Key `k` goes down. A machine that awaits a key takes a key that was
    /// up before: its slot goes to the waiting register, the program
    /// counter moves past the waiting instruction, and the machine runs
    /// again.
    pub open spec fn key_down(self, k: u8) -> Machine {
        let latched = Machine { keys: self.keys.update(k as int, true), ..self };
        match self.awaiting_key {
            Some(x) => if self.keys[k as int] {
                latched
            } else {
                Machine { awaiting_key: None, ..latched.set_reg(x, k).advance() }
            },
            None => latched,
        }
    }

    /// Key `k` goes up.
    pub open spec fn key_up(self, k: u8) -> Machine {
        Machine { keys: self.keys.update(k as int, false), ..self }
    }

    /// `ticks` periods of the 60 Hz clock pass: each timer loses one per
    /// period until it is zero.
    pub open spec fn run_timers(self, ticks: nat) -> Machine {
        Machine {
            delay_timer: timer_after(self.delay_timer, ticks),
            sound_timer: timer_after(self.sound_timer, ticks),
            ..self
        }
    }
}

/// A timer after `ticks` periods of the 60 Hz clock.
pub open spec fn timer_after(timer: u8, ticks: nat) -> u8 {
    if ticks >= timer {
        0
    } else {
        (timer - ticks) as u8
    }
}

} // verus!
