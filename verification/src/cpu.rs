use vstd::prelude::*;

use crate::display::{
    blit_so_far, collides_so_far, lemma_cell_lands_on_target, lemma_walk_ends,
    lemma_walk_next_row, lemma_walk_step, SCREEN_HEIGHT, SCREEN_SIZE, SCREEN_WIDTH, SPRITE_WIDTH,
};
use crate::error::Chip8Error;
use crate::instruction::{decode, Instruction};
use crate::rng::gen_range;
use crate::machine::{
    font_table, overlay, Machine, FLAG, FONT_ADDR, FONT_SIZE, GLYPH_SIZE, KEY_COUNT,
    MAX_ROM_SIZE, MEMORY_SIZE, OPCODE_SIZE, PC_LIMIT, REGISTER_COUNT, START_ADDR, STACK_DEPTH,
};

verus! {

/// The CHIP-8 virtual machine.
pub struct Chip8 {
    /// The instruction word that was fetched last.
    pub opcode: u16,
    memory: [u8; 4096],
    reg: [u8; 16],
    pc: u16,
    index: u16,
    pub delay_timer: u8,
    pub sound_timer: u8,
    stack: [u16; 16],
    sp: usize,
    /// Which of the sixteen keys are down.
    pub key: [bool; 16],
    /// The 64x32 framebuffer, row by row.
    pub gfx: [bool; 2048],
    /// Whether the framebuffer changed since it was last shown.
    pub update_screen: bool,
    /// The register that waits for a key press, while the machine is
    /// suspended.
    waiting: Option<u8>,
}

impl View for Chip8 {
    type V = Machine;

    closed spec fn view(&self) -> Machine {
        Machine {
            opcode: self.opcode,
            memory: self.memory@,
            registers: self.reg@,
            index: self.index as int,
            pc: self.pc as int,
            stack: self.stack@.take(self.sp as int),
            delay_timer: self.delay_timer,
            sound_timer: self.sound_timer,
            keys: self.key@,
            framebuffer: self.gfx@,
            redraw: self.update_screen,
            awaiting_key: self.waiting,
        }
    }
}

/// The least byte that `Cxnn` can draw.
pub const RANDOM_LOW: u8 = 0x00;

/// The bound that the bytes that `Cxnn` draws stay below.
pub const RANDOM_HIGH: u8 = 0xFE;

/// How a call that is owed `expected` ends: with the new state on success,
/// with the error and the state untouched on failure.
pub open spec fn ends_as(
    expected: Result<Machine, Chip8Error>,
    result: Result<(), Chip8Error>,
    before: Machine,
    after: Machine,
) -> bool {
    match expected {
        Ok(m) => result is Ok && after == m,
        Err(e) => result == Err::<(), Chip8Error>(e) && after == before,
    }
}

/// How a whole cycle ends for a given random byte: a suspended machine
/// stays as it is, a failed fetch leaves the machine as it was, and after a
/// fetch the machine ends as the execution of the fetched opcode does.
pub open spec fn cycle_ends_as(
    before: Machine,
    random: u8,
    result: Result<(), Chip8Error>,
    after: Machine,
) -> bool {
    if before.awaiting_key is Some {
        result is Ok && after == before
    } else {
        match before.fetch() {
            Err(e) => result == Err::<(), Chip8Error>(e) && after == before,
            Ok(fetched) => ends_as(fetched.execute(random), result, fetched, after),
        }
    }
}

/// The font table as bytes.
fn font() -> (table: [u8; 80])
    ensures
        table@ == font_table(),
{
    let table: [u8; 80] = [
        0xF0, 0x90, 0x90, 0x90, 0xF0,
        0x20, 0x60, 0x20, 0x20, 0x70,
        0xF0, 0x10, 0xF0, 0x80, 0xF0,
        0xF0, 0x10, 0xF0, 0x10, 0xF0,
        0x90, 0x90, 0xF0, 0x10, 0x10,
        0xF0, 0x80, 0xF0, 0x10, 0xF0,
        0xF0, 0x80, 0xF0, 0x90, 0xF0,
        0xF0, 0x10, 0x20, 0x40, 0x40,
        0xF0, 0x90, 0xF0, 0x90, 0xF0,
        0xF0, 0x90, 0xF0, 0x10, 0xF0,
        0xF0, 0x90, 0xF0, 0x90, 0x90,
        0xE0, 0x90, 0xE0, 0x90, 0xE0,
        0xF0, 0x80, 0x80, 0x80, 0xF0,
        0xE0, 0x90, 0x90, 0x90, 0xE0,
        0xF0, 0x80, 0xF0, 0x80, 0xF0,
        0xF0, 0x80, 0xF0, 0x80, 0x80,
    ];
    table
}

impl Chip8 {
    /// What holds of every machine between calls.
    pub closed spec fn wf(&self) -> bool {
        self.sp <= STACK_DEPTH && self@.wf()
    }

    /// A well-formed machine has a well-formed model.
    pub proof fn lemma_view_wf(&self)
        requires
            self.wf(),
        ensures
            self@.wf(),
    {
    }

    /// A machine at power-on: memory zeroed but for the font, registers,
    /// stack, timers, keys and framebuffer cleared, the program counter at
    /// the ROM base.
    pub fn init() -> (chip: Chip8)
        ensures
            chip.wf(),
            chip@ == Machine::initial(),
    {
        let mut memory = [0u8; 4096];
        let table = font();
        let ghost blank = memory@;
        let mut k: usize = 0;
        while k < FONT_SIZE
            invariant
                k <= FONT_SIZE,
                table@ == font_table(),
                blank.len() == MEMORY_SIZE,
                memory@ == overlay(blank, FONT_ADDR as int, font_table().take(k as int)),
            decreases FONT_SIZE - k,
        {
            memory[FONT_ADDR as usize + k] = table[k];
            k += 1;
        }
        let chip = Chip8 {
            opcode: 0,
            memory,
            reg: [0u8; 16],
            pc: START_ADDR,
            index: 0,
            delay_timer: 0,
            sound_timer: 0,
            stack: [0u16; 16],
            sp: 0,
            key: [false; 16],
            gfx: [false; 2048],
            update_screen: false,
            waiting: None,
        };
        chip
    }

    /// Writes the font over its reserved region.
    pub fn load_font(&mut self)
        requires
            old(self).wf(),
        ensures
            final(self).wf(),
            final(self)@ == old(self)@.with_font(),
    {
        let table = font();
        let mut i: usize = 0;
        while i < FONT_SIZE
            invariant
                i <= FONT_SIZE,
                table@ == font_table(),
                self.wf(),
                self@ == (Machine {
                    memory: overlay(old(self)@.memory, FONT_ADDR as int, font_table().take(i as int)),
                    ..old(self)@
                }),
            decreases FONT_SIZE - i,
        {
            self.memory[i + FONT_ADDR as usize] = table[i];
            i += 1;
        }
    }

    /// Copies a ROM into memory from the ROM base on. A ROM that would run
    /// past the end of memory is refused and nothing is written.
    pub fn load_rom(&mut self, rom: &[u8]) -> (result: Result<(), Chip8Error>)
        requires
            old(self).wf(),
        ensures
            final(self).wf(),
            rom@.len() <= MAX_ROM_SIZE ==> result is Ok && final(self)@ == old(self)@.with_rom(rom@),
            rom@.len() > MAX_ROM_SIZE ==> result == Err::<(), Chip8Error>(Chip8Error::RomTooLarge)
                && final(self)@ == old(self)@,
    {
        if rom.len() > MAX_ROM_SIZE {
            return Err(Chip8Error::RomTooLarge);
        }
        let mut i: usize = 0;
        while i < rom.len()
            invariant
                i <= rom@.len() <= MAX_ROM_SIZE,
                self.wf(),
                self@ == (Machine {
                    memory: overlay(old(self)@.memory, START_ADDR as int, rom@.take(i as int)),
                    ..old(self)@
                }),
            decreases rom@.len() - i,
        {
            self.memory[i + START_ADDR as usize] = rom[i];
            i += 1;
        }
        Ok(())
    }

    /// Loads what a byte source handed over: `None` stands for a source
    /// that could not produce the ROM.
    pub fn load_rom_from(&mut self, source: Option<Vec<u8>>) -> (result: Result<(), Chip8Error>)
        requires
            old(self).wf(),
        ensures
            final(self).wf(),
            match source {
                None => result == Err::<(), Chip8Error>(Chip8Error::RomUnreadable) && final(self)@
                    == old(self)@,
                Some(rom) => if rom@.len() <= MAX_ROM_SIZE {
                    result is Ok && final(self)@ == old(self)@.with_rom(rom@)
                } else {
                    result == Err::<(), Chip8Error>(Chip8Error::RomTooLarge) && final(self)@ == old(
                        self,
                    )@
                },
            },
    {
        match source {
            None => Err(Chip8Error::RomUnreadable),
            Some(rom) => self.load_rom(rom.as_slice()),
        }
    }

    /// Fetch: reads the big-endian word at the program counter, keeps it as
    /// the current opcode and returns it. The program counter stays.
    pub fn get_opcode(&mut self) -> (result: Result<u16, Chip8Error>)
        requires
            old(self).wf(),
        ensures
            final(self).wf(),
            match old(self)@.fetch() {
                Ok(m) => result == Ok::<u16, Chip8Error>(m.opcode) && final(self)@ == m,
                Err(e) => result == Err::<u16, Chip8Error>(e) && final(self)@ == old(self)@,
            },
    {
        if self.pc as usize + 1 >= MEMORY_SIZE {
            return Err(Chip8Error::OutOfBounds);
        }
        let high = self.memory[self.pc as usize] as u16;
        let low = self.memory[self.pc as usize + 1] as u16;
        assert((high << 8) | low == high * 256 + low) by (bit_vector)
            requires
                high < 256,
                low < 256,
        ;
        self.opcode = (high << 8) | low;
        Ok(self.opcode)
    }
}

impl Chip8 {
    /// What holds of a machine that is about to execute an instruction: it
    /// is not suspended, and the instruction lies inside memory.
    closed spec fn ready(&self) -> bool {
        &&& self.wf()
        &&& self.waiting is None
        &&& self.pc + 1 < MEMORY_SIZE
    }

    /// Moves the program counter past the current instruction.
    fn advance(&mut self)
        requires
            old(self).wf(),
            old(self).waiting is None,
            old(self).pc + OPCODE_SIZE <= PC_LIMIT,
        ensures
            final(self).wf(),
            final(self)@ == old(self)@.advance(),
    {
        self.pc += OPCODE_SIZE;
    }

    /// `00E0`: sets the screen to black.
    fn clear_scr(&mut self)
        requires
            old(self).ready(),
        ensures
            final(self).ready(),
            final(self)@ == old(self)@.clear_screen(),
    {
        self.gfx = [false; 2048];
        self.update_screen = true;
    }

    /// `00EE`: returns to the site of the innermost call.
    fn ret_from_sub(&mut self) -> (result: Result<(), Chip8Error>)
        requires
            old(self).ready(),
        ensures
            final(self).ready(),
            old(self)@.stack.len() > 0 ==> result is Ok && final(self)@ == old(self)@.pop_call(),
            old(self)@.stack.len() == 0 ==> result == Err::<(), Chip8Error>(
                Chip8Error::StackUnderflow,
            ) && final(self)@ == old(self)@,
    {
        if self.sp == 0 {
            return Err(Chip8Error::StackUnderflow);
        }
        self.sp -= 1;
        self.pc = self.stack[self.sp];
        Ok(())
    }

    /// `1nnn`: unconditional jump.
    fn goto(&mut self, nnn: u16)
        requires
            old(self).ready(),
            nnn < 0x1000,
        ensures
            final(self).wf(),
            final(self)@ == old(self)@.jump(nnn),
    {
        self.pc = nnn;
    }

    /// `2nnn`: calls the subroutine at `nnn`.
    fn call(&mut self, nnn: u16) -> (result: Result<(), Chip8Error>)
        requires
            old(self).ready(),
            nnn < 0x1000,
        ensures
            final(self).wf(),
            old(self)@.stack.len() < STACK_DEPTH ==> result is Ok && final(self)@ == old(
                self,
            )@.call(nnn),
            old(self)@.stack.len() >= STACK_DEPTH ==> result == Err::<(), Chip8Error>(
                Chip8Error::StackOverflow,
            ) && final(self)@ == old(self)@,
    {
        if self.sp >= STACK_DEPTH {
            return Err(Chip8Error::StackOverflow);
        }
        self.stack[self.sp] = self.pc;
        self.sp += 1;
        self.pc = nnn;
        assert(self@.stack =~= old(self)@.stack.push(old(self).pc));
        Ok(())
    }

    /// Moves the program counter past the next instruction if `taken`.
    fn skip_when(&mut self, taken: bool)
        requires
            old(self).ready(),
        ensures
            final(self).wf(),
            final(self)@ == old(self)@.skip_when(taken),
    {
        if taken {
            self.pc += OPCODE_SIZE;
        }
    }

    /// `3xnn`: skips the next instruction if `Vx` equals `nn`.
    fn ieq_const(&mut self, vx: u8, nn: u8)
        requires
            old(self).ready(),
            vx < REGISTER_COUNT,
        ensures
            final(self).wf(),
            final(self)@ == old(self)@.skip_when(old(self)@.reg(vx) == nn),
    {
        let taken = self.reg[vx as usize] == nn;
        self.skip_when(taken);
    }

    /// `4xnn`: skips the next instruction if `Vx` differs from `nn`.
    fn neq_const(&mut self, vx: u8, nn: u8)
        requires
            old(self).ready(),
            vx < REGISTER_COUNT,
        ensures
            final(self).wf(),
            final(self)@ == old(self)@.skip_when(old(self)@.reg(vx) != nn),
    {
        let taken = self.reg[vx as usize] != nn;
        self.skip_when(taken);
    }

    /// `5xy0`: skips the next instruction if `Vx` equals `Vy`.
    fn ieq(&mut self, vx: u8, vy: u8)
        requires
            old(self).ready(),
            vx < REGISTER_COUNT,
            vy < REGISTER_COUNT,
        ensures
            final(self).wf(),
            final(self)@ == old(self)@.skip_when(old(self)@.reg(vx) == old(self)@.reg(vy)),
    {
        let taken = self.reg[vx as usize] == self.reg[vy as usize];
        self.skip_when(taken);
    }

    /// `6xnn`: sets `Vx` to `nn`.
    fn set_vx_const(&mut self, vx: u8, nn: u8)
        requires
            old(self).ready(),
            vx < REGISTER_COUNT,
        ensures
            final(self).ready(),
            final(self)@ == old(self)@.set_reg(vx, nn),
    {
        self.reg[vx as usize] = nn;
    }

    /// `7xnn`: adds `nn` to `Vx`, modulo 256.
    fn adds_const(&mut self, vx: u8, nn: u8)
        requires
            old(self).ready(),
            vx < REGISTER_COUNT,
        ensures
            final(self).ready(),
            final(self)@ == old(self)@.add_const(vx, nn),
    {
        self.reg[vx as usize] = ((self.reg[vx as usize] as u16 + nn as u16) % 0x100) as u8;
    }

    /// `8xy0`: sets `Vx` to `Vy`.
    fn set_vx_vy(&mut self, vx: u8, vy: u8)
        requires
            old(self).ready(),
            vx < REGISTER_COUNT,
            vy < REGISTER_COUNT,
        ensures
            final(self).ready(),
            final(self)@ == old(self)@.mov(vx, vy),
    {
        self.reg[vx as usize] = self.reg[vy as usize];
    }

    /// `8xy1`: sets `Vx` to `Vx | Vy`.
    fn set_or_vx_vy(&mut self, vx: u8, vy: u8)
        requires
            old(self).ready(),
            vx < REGISTER_COUNT,
            vy < REGISTER_COUNT,
        ensures
            final(self).ready(),
            final(self)@ == old(self)@.or(vx, vy),
    {
        self.reg[vx as usize] = self.reg[vx as usize] | self.reg[vy as usize];
    }

    /// `8xy2`: sets `Vx` to `Vx & Vy`.
    fn set_and_vx_vy(&mut self, vx: u8, vy: u8)
        requires
            old(self).ready(),
            vx < REGISTER_COUNT,
            vy < REGISTER_COUNT,
        ensures
            final(self).ready(),
            final(self)@ == old(self)@.and(vx, vy),
    {
        self.reg[vx as usize] = self.reg[vx as usize] & self.reg[vy as usize];
    }

    /// `8xy3`: sets `Vx` to `Vx ^ Vy`.
    fn set_xor_vx_vy(&mut self, vx: u8, vy: u8)
        requires
            old(self).ready(),
            vx < REGISTER_COUNT,
            vy < REGISTER_COUNT,
        ensures
            final(self).ready(),
            final(self)@ == old(self)@.xor(vx, vy),
    {
        self.reg[vx as usize] = self.reg[vx as usize] ^ self.reg[vy as usize];
    }

    /// `8xy4`: sets `VF` to the carry of `Vx + Vy`, then `Vx` to the sum.
    fn adds_vx_vy(&mut self, vx: u8, vy: u8)
        requires
            old(self).ready(),
            vx < REGISTER_COUNT,
            vy < REGISTER_COUNT,
        ensures
            final(self).ready(),
            final(self)@ == old(self)@.add(vx, vy),
    {
        if self.reg[vx as usize] as u16 + self.reg[vy as usize] as u16 > 0xFF {
            self.reg[FLAG as usize] = 1;
        } else {
            self.reg[FLAG as usize] = 0;
        }
        self.reg[vx as usize] = ((self.reg[vx as usize] as u16 + self.reg[vy as usize] as u16)
            % 0x100) as u8;
    }

    /// `8xy5`: sets `VF` to 1 unless `Vx - Vy` borrows, then `Vx` to the
    /// difference.
    fn subs_vx_vy(&mut self, vx: u8, vy: u8)
        requires
            old(self).ready(),
            vx < REGISTER_COUNT,
            vy < REGISTER_COUNT,
        ensures
            final(self).ready(),
            final(self)@ == old(self)@.sub(vx, vy),
    {
        if self.reg[vx as usize] >= self.reg[vy as usize] {
            self.reg[FLAG as usize] = 1;
        } else {
            self.reg[FLAG as usize] = 0;
        }
        self.reg[vx as usize] = self.reg[vx as usize].wrapping_sub(self.reg[vy as usize]);
    }

    /// `8xy6`: stores the least significant bit of `Vx` in `VF`, then
    /// shifts `Vx` right by one.
    fn shift_r1(&mut self, vx: u8)
        requires
            old(self).ready(),
            vx < REGISTER_COUNT,
        ensures
            final(self).ready(),
            final(self)@ == old(self)@.shr(vx),
    {
        let before = self.reg[vx as usize];
        assert(before & 0x1 == before % 2) by (bit_vector);
        self.reg[FLAG as usize] = self.reg[vx as usize] & 0x1;
        let flagged = self.reg[vx as usize];
        assert(flagged >> 1 == flagged / 2) by (bit_vector);
        self.reg[vx as usize] = self.reg[vx as usize] >> 1;
    }

    /// `8xy7`: sets `VF` to 1 unless `Vy - Vx` borrows, then `Vx` to the
    /// difference.
    fn subs_vy_vx(&mut self, vx: u8, vy: u8)
        requires
            old(self).ready(),
            vx < REGISTER_COUNT,
            vy < REGISTER_COUNT,
        ensures
            final(self).ready(),
            final(self)@ == old(self)@.subn(vx, vy),
    {
        if self.reg[vy as usize] >= self.reg[vx as usize] {
            self.reg[FLAG as usize] = 1;
        } else {
            self.reg[FLAG as usize] = 0;
        }
        self.reg[vx as usize] = self.reg[vy as usize].wrapping_sub(self.reg[vx as usize]);
    }

    /// `8xyE`: stores the most significant bit of `Vx` in `VF`, then
    /// shifts `Vx` left by one.
    fn shift_l1(&mut self, vx: u8)
        requires
            old(self).ready(),
            vx < REGISTER_COUNT,
        ensures
            final(self).ready(),
            final(self)@ == old(self)@.shl(vx),
    {
        let before = self.reg[vx as usize];
        assert((before & 0x80) >> 7 == before / 128) by (bit_vector);
        self.reg[FLAG as usize] = (self.reg[vx as usize] & 0x80) >> 7;
        let flagged = self.reg[vx as usize];
        assert(flagged << 1 == (flagged * 2) % 256) by (bit_vector);
        self.reg[vx as usize] = self.reg[vx as usize] << 1;
    }

    /// `9xy0`: skips the next instruction if `Vx` differs from `Vy`.
    fn neq(&mut self, vx: u8, vy: u8)
        requires
            old(self).ready(),
            vx < REGISTER_COUNT,
            vy < REGISTER_COUNT,
        ensures
            final(self).wf(),
            final(self)@ == old(self)@.skip_when(old(self)@.reg(vx) != old(self)@.reg(vy)),
    {
        let taken = self.reg[vx as usize] != self.reg[vy as usize];
        self.skip_when(taken);
    }

    /// `Annn`: sets `I` to `nnn`.
    fn set_i(&mut self, nnn: u16)
        requires
            old(self).ready(),
        ensures
            final(self).ready(),
            final(self)@ == old(self)@.set_index(nnn),
    {
        self.index = nnn;
    }

    /// `Bnnn`: jumps to `V0 + nnn`.
    fn jump_v0(&mut self, nnn: u16)
        requires
            old(self).ready(),
            nnn < 0x1000,
        ensures
            final(self).wf(),
            final(self)@ == old(self)@.jump_v0(nnn),
    {
        self.pc = self.reg[0] as u16 + nnn;
    }

    /// `Cxnn`: sets `Vx` to a random byte masked by `nn`.
    fn random(&mut self, vx: u8, nn: u8, byte: u8)
        requires
            old(self).ready(),
            vx < REGISTER_COUNT,
        ensures
            final(self).ready(),
            final(self)@ == old(self)@.rnd(vx, nn, byte),
    {
        self.reg[vx as usize] = byte & nn;
    }

    /// `Ex9E`: skips the next instruction if the key that `Vx` names is
    /// down.
    fn ieq_key(&mut self, vx: u8) -> (result: Result<(), Chip8Error>)
        requires
            old(self).ready(),
            vx < REGISTER_COUNT,
        ensures
            final(self).wf(),
            old(self)@.reg(vx) < KEY_COUNT ==> result is Ok && final(self)@ == old(self)@.skip_when(
                old(self)@.key_is_down(vx),
            ),
            old(self)@.reg(vx) >= KEY_COUNT ==> result == Err::<(), Chip8Error>(Chip8Error::OutOfBounds)
                && final(self)@ == old(self)@,
    {
        let slot = self.reg[vx as usize] as usize;
        if slot >= KEY_COUNT {
            return Err(Chip8Error::OutOfBounds);
        }
        let taken = self.key[slot] == true;
        self.skip_when(taken);
        Ok(())
    }

    /// `ExA1`: skips the next instruction if the key that `Vx` names is up.
    fn neq_key(&mut self, vx: u8) -> (result: Result<(), Chip8Error>)
        requires
            old(self).ready(),
            vx < REGISTER_COUNT,
        ensures
            final(self).wf(),
            old(self)@.reg(vx) < KEY_COUNT ==> result is Ok && final(self)@ == old(self)@.skip_when(
                !old(self)@.key_is_down(vx),
            ),
            old(self)@.reg(vx) >= KEY_COUNT ==> result == Err::<(), Chip8Error>(Chip8Error::OutOfBounds)
                && final(self)@ == old(self)@,
    {
        let slot = self.reg[vx as usize] as usize;
        if slot >= KEY_COUNT {
            return Err(Chip8Error::OutOfBounds);
        }
        let taken = self.key[slot] == false;
        self.skip_when(taken);
        Ok(())
    }

    /// `Fx07`: sets `Vx` to the delay timer.
    fn get_delay(&mut self, vx: u8)
        requires
            old(self).ready(),
            vx < REGISTER_COUNT,
        ensures
            final(self).ready(),
            final(self)@ == old(self)@.load_delay(vx),
    {
        self.reg[vx as usize] = self.delay_timer;
    }

    /// `Fx0A`: suspends the machine until a key is pressed; `Vx` will
    /// receive its slot.
    fn get_key(&mut self, vx: u8)
        requires
            old(self).ready(),
            vx < REGISTER_COUNT,
        ensures
            final(self).wf(),
            final(self)@ == old(self)@.wait_key(vx),
    {
        self.waiting = Some(vx);
    }

    /// `Fx15`: sets the delay timer to `Vx`.
    fn set_delay(&mut self, vx: u8)
        requires
            old(self).ready(),
            vx < REGISTER_COUNT,
        ensures
            final(self).ready(),
            final(self)@ == old(self)@.set_delay(vx),
    {
        self.delay_timer = self.reg[vx as usize];
    }

    /// `Fx18`: sets the sound timer to `Vx`.
    fn set_sound(&mut self, vx: u8)
        requires
            old(self).ready(),
            vx < REGISTER_COUNT,
        ensures
            final(self).ready(),
            final(self)@ == old(self)@.set_sound(vx),
    {
        self.sound_timer = self.reg[vx as usize];
    }

    /// `Fx1E`: adds `Vx` to `I`. A sum that does not fit the index
    /// register is refused.
    fn add_i_vx(&mut self, vx: u8) -> (result: Result<(), Chip8Error>)
        requires
            old(self).ready(),
            vx < REGISTER_COUNT,
        ensures
            final(self).ready(),
            old(self)@.index + old(self)@.reg(vx) <= 0xFFFF ==> result is Ok && final(self)@
                == old(self)@.add_index(vx),
            old(self)@.index + old(self)@.reg(vx) > 0xFFFF ==> result == Err::<(), Chip8Error>(
                Chip8Error::OutOfBounds,
            ) && final(self)@ == old(self)@,
    {
        match self.index.checked_add(self.reg[vx as usize] as u16) {
            Some(sum) => {
                self.index = sum;
                Ok(())
            },
            None => Err(Chip8Error::OutOfBounds),
        }
    }

    /// `Fx29`: points `I` at the glyph for `Vx`.
    fn set_i_sprite(&mut self, vx: u8)
        requires
            old(self).ready(),
            vx < REGISTER_COUNT,
        ensures
            final(self).ready(),
            final(self)@ == old(self)@.glyph(vx),
    {
        self.index = FONT_ADDR + self.reg[vx as usize] as u16 * GLYPH_SIZE;
    }

    /// `Fx33`: stores the hundreds, tens and ones of `Vx` at `I`, `I + 1`
    /// and `I + 2`.
    fn set_bcd(&mut self, vx: u8) -> (result: Result<(), Chip8Error>)
        requires
            old(self).ready(),
            vx < REGISTER_COUNT,
        ensures
            final(self).ready(),
            old(self)@.index + 2 < MEMORY_SIZE ==> result is Ok && final(self)@ == old(self)@.bcd(
                vx,
            ),
            old(self)@.index + 2 >= MEMORY_SIZE ==> result == Err::<(), Chip8Error>(
                Chip8Error::OutOfBounds,
            ) && final(self)@ == old(self)@,
    {
        let at = self.index as usize;
        if at + 2 >= MEMORY_SIZE {
            return Err(Chip8Error::OutOfBounds);
        }
        let value = self.reg[vx as usize];
        self.memory[at] = value / 100;
        self.memory[at + 1] = (value % 100) / 10;
        self.memory[at + 2] = value % 10;
        Ok(())
    }

    /// `Fx55`: stores `V0..=Vx` in memory from `I` on.
    fn store_regs_mem(&mut self, vx: u8) -> (result: Result<(), Chip8Error>)
        requires
            old(self).ready(),
            vx < REGISTER_COUNT,
        ensures
            final(self).ready(),
            old(self)@.index + vx < MEMORY_SIZE ==> result is Ok && final(self)@ == old(
                self,
            )@.reg_dump(vx),
            old(self)@.index + vx >= MEMORY_SIZE ==> result == Err::<(), Chip8Error>(
                Chip8Error::OutOfBounds,
            ) && final(self)@ == old(self)@,
    {
        let at = self.index as usize;
        if at + vx as usize >= MEMORY_SIZE {
            return Err(Chip8Error::OutOfBounds);
        }
        let mut i: usize = 0;
        while i < vx as usize + 1
            invariant
                i <= vx + 1 <= REGISTER_COUNT,
                at == old(self)@.index,
                at + vx < MEMORY_SIZE,
                self.ready(),
                self@ == (Machine {
                    memory: overlay(
                        old(self)@.memory,
                        at as int,
                        old(self)@.registers.take(i as int),
                    ),
                    ..old(self)@
                }),
            decreases vx + 1 - i,
        {
            self.memory[at + i] = self.reg[i];
            i += 1;
        }
        Ok(())
    }

    /// `Fx65`: loads `V0..=Vx` from memory from `I` on.
    fn load_regs_mem(&mut self, vx: u8) -> (result: Result<(), Chip8Error>)
        requires
            old(self).ready(),
            vx < REGISTER_COUNT,
        ensures
            final(self).ready(),
            old(self)@.index + vx < MEMORY_SIZE ==> result is Ok && final(self)@ == old(
                self,
            )@.reg_load(vx),
            old(self)@.index + vx >= MEMORY_SIZE ==> result == Err::<(), Chip8Error>(
                Chip8Error::OutOfBounds,
            ) && final(self)@ == old(self)@,
    {
        let at = self.index as usize;
        if at + vx as usize >= MEMORY_SIZE {
            return Err(Chip8Error::OutOfBounds);
        }
        let mut i: usize = 0;
        while i < vx as usize + 1
            invariant
                i <= vx + 1 <= REGISTER_COUNT,
                at == old(self)@.index,
                at + vx < MEMORY_SIZE,
                self.ready(),
                self@ == (Machine {
                    registers: Seq::new(
                        REGISTER_COUNT as nat,
                        |j: int|
                            if j < i {
                                old(self)@.memory[at + j]
                            } else {
                                old(self)@.registers[j]
                            },
                    ),
                    ..old(self)@
                }),
            decreases vx + 1 - i,
        {
            self.reg[i] = self.memory[at + i];
            i += 1;
        }
        Ok(())
    }
}

impl Chip8 {
    /// `Dxyn`: draws the `n`-row sprite at `I` at the coordinates
    /// (`Vx`, `Vy`).
    fn draw(&mut self, vx: u8, vy: u8, n: u8) -> (result: Result<(), Chip8Error>)
        requires
            old(self).ready(),
            vx < REGISTER_COUNT,
            vy < REGISTER_COUNT,
            n < 16,
        ensures
            final(self).ready(),
            !(n > 0 && old(self)@.index + n > MEMORY_SIZE) ==> result is Ok && final(self)@ == old(
                self,
            )@.draw(vx, vy, n),
            n > 0 && old(self)@.index + n > MEMORY_SIZE ==> result == Err::<(), Chip8Error>(
                Chip8Error::OutOfBounds,
            ) && final(self)@ == old(self)@,
    {
        if n > 0 && self.index as usize + n as usize > MEMORY_SIZE {
            return Err(Chip8Error::OutOfBounds);
        }
        let x = self.reg[vx as usize] as usize;
        let y = self.reg[vy as usize] as usize;
        let ghost before = self@;
        let ghost rows = before.sprite(n);
        let ghost fb = before.framebuffer;
        self.reg[FLAG as usize] = 0;
        proof {
            lemma_walk_ends(fb, rows, x as int, y as int);
        }
        let mut yline: u8 = 0;
        while yline < n
            invariant
                yline <= n < 16,
                x < 256,
                y < 256,
                n > 0 ==> before.index + n <= MEMORY_SIZE,
                rows == before.sprite(n),
                fb == before.framebuffer,
                fb.len() == SCREEN_SIZE,
                before == old(self)@,
                self.ready(),
                self@ == (Machine {
                    framebuffer: blit_so_far(fb, rows, x as int, y as int, yline as int, 0),
                    registers: before.registers.update(
                        FLAG as int,
                        if collides_so_far(fb, rows, x as int, y as int, yline as int, 0) {
                            1u8
                        } else {
                            0u8
                        },
                    ),
                    ..before
                }),
            decreases n - yline,
        {
            let pixel = self.memory[self.index as usize + yline as usize];
            let mut xline: u8 = 0;
            while xline < SPRITE_WIDTH as u8
                invariant
                    xline <= SPRITE_WIDTH,
                    yline < n < 16,
                    x < 256,
                    y < 256,
                    rows == before.sprite(n),
                    pixel == rows[yline as int],
                    fb == before.framebuffer,
                    fb.len() == SCREEN_SIZE,
                    before == old(self)@,
                    self.ready(),
                    self@ == (Machine {
                        framebuffer: blit_so_far(
                            fb,
                            rows,
                            x as int,
                            y as int,
                            yline as int,
                            xline as int,
                        ),
                        registers: before.registers.update(
                            FLAG as int,
                            if collides_so_far(
                                fb,
                                rows,
                                x as int,
                                y as int,
                                yline as int,
                                xline as int,
                            ) {
                                1u8
                            } else {
                                0u8
                            },
                        ),
                        ..before
                    }),
                decreases SPRITE_WIDTH - xline,
            {
                proof {
                    lemma_walk_step(fb, rows, x as int, y as int, yline as int, xline as int);
                    lemma_cell_lands_on_target(rows, x as int, y as int, yline as int, xline as int);
                }
                if (pixel & (0x80u8 >> xline)) != 0 {
                    let at = (x + xline as usize) % SCREEN_WIDTH + ((y + yline as usize) % SCREEN_HEIGHT)
                        * SCREEN_WIDTH;
                    if self.gfx[at] == true {
                        self.reg[FLAG as usize] = 1;
                    }
                    self.gfx[at] = !self.gfx[at];
                }
                xline += 1;
            }
            proof {
                lemma_walk_next_row(fb, rows, x as int, y as int, yline as int);
            }
            yline += 1;
        }
        self.update_screen = true;
        proof {
            lemma_walk_ends(fb, rows, x as int, y as int);
        }
        Ok(())
    }

    /// Executes one instruction, with `random` for the random byte that
    /// `Cxnn` reads.
    fn run(&mut self, instr: Instruction, random: u8) -> (result: Result<(), Chip8Error>)
        requires
            old(self).wf(),
            old(self).waiting is None,
            instr.wf(),
        ensures
            final(self).wf(),
            ends_as(old(self)@.step(instr, random), result, old(self)@, final(self)@),
    {
        if self.pc as usize + 1 >= MEMORY_SIZE {
            return Err(Chip8Error::OutOfBounds);
        }
        let done = match instr {
            Instruction::Cls => {
                self.clear_scr();
                Ok(())
            },
            Instruction::Ret => self.ret_from_sub(),
            Instruction::Jmp { nnn } => {
                self.goto(nnn);
                Ok(())
            },
            Instruction::Call { nnn } => self.call(nnn),
            Instruction::SkeqConst { x, nn } => {
                self.ieq_const(x, nn);
                Ok(())
            },
            Instruction::SkneConst { x, nn } => {
                self.neq_const(x, nn);
                Ok(())
            },
            Instruction::SkeqReg { x, y } => {
                self.ieq(x, y);
                Ok(())
            },
            Instruction::LdConst { x, nn } => {
                self.set_vx_const(x, nn);
                Ok(())
            },
            Instruction::AddConst { x, nn } => {
                self.adds_const(x, nn);
                Ok(())
            },
            Instruction::Mov { x, y } => {
                self.set_vx_vy(x, y);
                Ok(())
            },
            Instruction::Or { x, y } => {
                self.set_or_vx_vy(x, y);
                Ok(())
            },
            Instruction::And { x, y } => {
                self.set_and_vx_vy(x, y);
                Ok(())
            },
            Instruction::Xor { x, y } => {
                self.set_xor_vx_vy(x, y);
                Ok(())
            },
            Instruction::Add { x, y } => {
                self.adds_vx_vy(x, y);
                Ok(())
            },
            Instruction::Sub { x, y } => {
                self.subs_vx_vy(x, y);
                Ok(())
            },
            Instruction::Shr { x } => {
                self.shift_r1(x);
                Ok(())
            },
            Instruction::Subn { x, y } => {
                self.subs_vy_vx(x, y);
                Ok(())
            },
            Instruction::Shl { x } => {
                self.shift_l1(x);
                Ok(())
            },
            Instruction::SkneReg { x, y } => {
                self.neq(x, y);
                Ok(())
            },
            Instruction::LdI { nnn } => {
                self.set_i(nnn);
                Ok(())
            },
            Instruction::JmpV0 { nnn } => {
                self.jump_v0(nnn);
                Ok(())
            },
            Instruction::Rnd { x, nn } => {
                self.random(x, nn, random);
                Ok(())
            },
            Instruction::Draw { x, y, n } => self.draw(x, y, n),
            Instruction::SkeqKey { x } => self.ieq_key(x),
            Instruction::SkneKey { x } => self.neq_key(x),
            Instruction::LdDelay { x } => {
                self.get_delay(x);
                Ok(())
            },
            Instruction::WaitKey { x } => {
                self.get_key(x);
                Ok(())
            },
            Instruction::SetDelay { x } => {
                self.set_delay(x);
                Ok(())
            },
            Instruction::SetSound { x } => {
                self.set_sound(x);
                Ok(())
            },
            Instruction::AddI { x } => self.add_i_vx(x),
            Instruction::Font { x } => {
                self.set_i_sprite(x);
                Ok(())
            },
            Instruction::Bcd { x } => self.set_bcd(x),
            Instruction::RegDump { x } => self.store_regs_mem(x),
            Instruction::RegLoad { x } => self.load_regs_mem(x),
        };
        match done {
            Err(e) => Err(e),
            Ok(()) => {
                match instr {
                    Instruction::Jmp { .. }
                    | Instruction::Call { .. }
                    | Instruction::JmpV0 { .. }
                    | Instruction::WaitKey { .. } => {},
                    _ => {
                        self.advance();
                    },
                }
                Ok(())
            },
        }
    }

    /// Decodes the current opcode and executes it, with `random` for the
    /// random byte that `Cxnn` reads. A machine that awaits a key does
    /// nothing. On an error the machine is left as it was.
    pub fn execute(&mut self, random: u8) -> (result: Result<(), Chip8Error>)
        requires
            old(self).wf(),
        ensures
            final(self).wf(),
            ends_as(old(self)@.execute(random), result, old(self)@, final(self)@),
    {
        if self.waiting.is_some() {
            return Ok(());
        }
        match decode(self.opcode) {
            None => Err(Chip8Error::UnknownOpcode(self.opcode, self.pc)),
            Some(instr) => self.run(instr, random),
        }
    }

    /// Decodes the current opcode and executes it. `Cxnn` draws its random
    /// byte here; every other opcode ends as `execute` says for any byte.
    pub fn decode_opcode(&mut self) -> (result: Result<(), Chip8Error>)
        requires
            old(self).wf(),
        ensures
            final(self).wf(),
            exists|random: u8|
                random < RANDOM_HIGH && ends_as(
                    #[trigger] old(self)@.execute(random),
                    result,
                    old(self)@,
                    final(self)@,
                ),
            !old(self)@.reads_random() ==> ends_as(
                old(self)@.execute(0),
                result,
                old(self)@,
                final(self)@,
            ),
    {
        if self.waiting.is_some() {
            return Ok(());
        }
        match decode(self.opcode) {
            None => {
                Err(Chip8Error::UnknownOpcode(self.opcode, self.pc))
            },
            Some(instr) => {
                let random = match instr {
                    Instruction::Rnd { .. } => {
                        let mut rng = rand::thread_rng();
                        gen_range(&mut rng, RANDOM_LOW, RANDOM_HIGH)
                    },
                    _ => 0,
                };
                let result = self.run(instr, random);
                assert(ends_as(old(self)@.execute(random), result, old(self)@, self@));
                result
            },
        }
    }

    /// One whole cycle: fetch, decode, execute. A machine that awaits a
    /// key does nothing. Where the fetch fails the machine is left as it
    /// was; where the execution fails it keeps the opcode that failed.
    pub fn cycle(&mut self) -> (result: Result<(), Chip8Error>)
        requires
            old(self).wf(),
        ensures
            final(self).wf(),
            exists|random: u8|
                random < RANDOM_HIGH && #[trigger] cycle_ends_as(
                    old(self)@,
                    random,
                    result,
                    final(self)@,
                ),
            !old(self)@.cycle_reads_random() ==> cycle_ends_as(
                old(self)@,
                0,
                result,
                final(self)@,
            ),
    {
        if self.waiting.is_some() {
            assert(cycle_ends_as(old(self)@, 0, Ok(()), self@));
            return Ok(());
        }
        match self.get_opcode() {
            Err(e) => {
                assert(cycle_ends_as(old(self)@, 0, Err(e), self@));
                Err(e)
            },
            Ok(_) => {
                let ghost fetched = self@;
                let result = self.decode_opcode();
                proof {
                    let random = choose|random: u8|
                        random < RANDOM_HIGH && ends_as(
                            #[trigger] fetched.execute(random),
                            result,
                            fetched,
                            self@,
                        );
                    assert(cycle_ends_as(old(self)@, random, result, self@));
                }
                result
            },
        }
    }
}

impl Chip8 {
    /// Key `key` goes down. A slot outside the keypad is refused. A machine
    /// that awaits a key takes a key that was up before: the waiting
    /// register receives the slot, the program counter moves past the
    /// waiting instruction and the machine runs again.
    pub fn key_down(&mut self, key: u8) -> (result: Result<(), Chip8Error>)
        requires
            old(self).wf(),
        ensures
            final(self).wf(),
            key < KEY_COUNT ==> result is Ok && final(self)@ == old(self)@.key_down(key),
            key >= KEY_COUNT ==> result == Err::<(), Chip8Error>(Chip8Error::OutOfBounds) && final(self)@
                == old(self)@,
    {
        if key as usize >= KEY_COUNT {
            return Err(Chip8Error::OutOfBounds);
        }
        let was_down = self.key[key as usize];
        self.key[key as usize] = true;
        match self.waiting {
            Some(vx) => {
                if !was_down {
                    self.reg[vx as usize] = key;
                    self.waiting = None;
                    self.pc += OPCODE_SIZE;
                }
            },
            None => {},
        }
        Ok(())
    }

    /// Key `key` goes up. A slot outside the keypad is refused.
    pub fn key_up(&mut self, key: u8) -> (result: Result<(), Chip8Error>)
        requires
            old(self).wf(),
        ensures
            final(self).wf(),
            key < KEY_COUNT ==> result is Ok && final(self)@ == old(self)@.key_up(key),
            key >= KEY_COUNT ==> result == Err::<(), Chip8Error>(Chip8Error::OutOfBounds) && final(self)@
                == old(self)@,
    {
        if key as usize >= KEY_COUNT {
            return Err(Chip8Error::OutOfBounds);
        }
        self.key[key as usize] = false;
        Ok(())
    }

    /// Lets `ticks` periods of the 60 Hz clock pass: each timer loses one
    /// per period and stops at zero.
    pub fn tick_timers(&mut self, ticks: u64)
        requires
            old(self).wf(),
        ensures
            final(self).wf(),
            final(self)@ == old(self)@.run_timers(ticks as nat),
    {
        if ticks >= self.delay_timer as u64 {
            self.delay_timer = 0;
        } else {
            self.delay_timer = self.delay_timer - ticks as u8;
        }
        if ticks >= self.sound_timer as u64 {
            self.sound_timer = 0;
        } else {
            self.sound_timer = self.sound_timer - ticks as u8;
        }
    }

    /// Tells the machine that the frame has been shown.
    pub fn frame_shown(&mut self)
        requires
            old(self).wf(),
        ensures
            final(self).wf(),
            final(self)@ == (Machine { redraw: false, ..old(self)@ }),
    {
        self.update_screen = false;
    }

    /// The program counter.
    pub fn pc(&self) -> (pc: u16)
        ensures
            pc == self@.pc,
    {
        self.pc
    }

    /// The index register.
    pub fn index(&self) -> (index: u16)
        ensures
            index == self@.index,
    {
        self.index
    }

    /// The registers `V0` to `VF`.
    pub fn registers(&self) -> (registers: &[u8; 16])
        ensures
            registers@ == self@.registers,
    {
        &self.reg
    }

    /// The whole memory.
    pub fn memory(&self) -> (memory: &[u8; 4096])
        ensures
            memory@ == self@.memory,
    {
        &self.memory
    }

    /// How many calls have not returned yet.
    pub fn stack_depth(&self) -> (depth: usize)
        requires
            self.wf(),
        ensures
            depth == self@.stack.len(),
    {
        self.sp
    }

    /// The keypad latch.
    pub fn keys(&self) -> (keys: &[bool; 16])
        ensures
            keys@ == self@.keys,
    {
        &self.key
    }

    /// The framebuffer, row by row.
    pub fn framebuffer(&self) -> (framebuffer: &[bool; 2048])
        ensures
            framebuffer@ == self@.framebuffer,
    {
        &self.gfx
    }

    /// Whether the framebuffer changed since it was last shown.
    pub fn needs_redraw(&self) -> (redraw: bool)
        ensures
            redraw == self@.redraw,
    {
        self.update_screen
    }

    /// The register that waits for a key press, if the machine is
    /// suspended.
    pub fn awaiting_key(&self) -> (waiting: Option<u8>)
        ensures
            waiting == self@.awaiting_key,
    {
        self.waiting
    }
}

} // verus!
