use vstd::prelude::*;

use crate::display::{
    collides, lemma_blit_is_involution, lemma_erasing_collides, lemma_second_blit_collision,
    sprite_lights, SCREEN_SIZE,
};
use crate::emulator::{EmulatorModel, TIMER_PERIOD};
use crate::error::Chip8Error;
use crate::instruction::{lemma_decoded_is_wf, spec_decode, Instruction};
use crate::machine::{
    font_table, timer_after, Machine, FLAG, FONT_ADDR, FONT_SIZE, GLYPH_SIZE, KEY_COUNT,
    MAX_ROM_SIZE, MEMORY_SIZE, OPCODE_SIZE, REGISTER_COUNT, STACK_DEPTH, START_ADDR,
};

verus! {

/// Whether a skip instruction finds its condition true on this machine.
pub open spec fn skip_taken(m: Machine, instr: Instruction) -> bool {
    match instr {
        Instruction::SkeqConst { x, nn } => m.reg(x) == nn,
        Instruction::SkneConst { x, nn } => m.reg(x) != nn,
        Instruction::SkeqReg { x, y } => m.reg(x) == m.reg(y),
        Instruction::SkneReg { x, y } => m.reg(x) != m.reg(y),
        Instruction::SkeqKey { x } => m.key_is_down(x),
        Instruction::SkneKey { x } => !m.key_is_down(x),
        _ => false,
    }
}

/// Every instruction that is no jump, takes no skip and does not wait for a
/// key leaves the program counter exactly one instruction further.
pub proof fn law_pc_advances_by_one_instruction(m: Machine, instr: Instruction, random: u8)
    requires
        m.wf(),
        instr.wf(),
        !instr.is_jump(),
        !skip_taken(m, instr),
        !(instr is WaitKey),
    ensures
        m.step(instr, random) matches Ok(next) ==> next.pc == m.pc + OPCODE_SIZE,
        m.awaiting_key is None && spec_decode(m.opcode) == Some(instr) ==> (m.execute(
            random,
        ) matches Ok(next) ==> next.pc == m.pc + OPCODE_SIZE),
{
}

/// A skip whose condition holds leaves the program counter two
/// instructions further.
pub proof fn law_taken_skip_advances_by_two_instructions(
    m: Machine,
    instr: Instruction,
    random: u8,
)
    requires
        m.wf(),
        instr.wf(),
        skip_taken(m, instr),
    ensures
        m.step(instr, random) matches Ok(next) ==> next.pc == m.pc + 2 * OPCODE_SIZE,
{
}

/// Waiting for a key keeps the program counter on the waiting instruction;
/// the press of a key that was up moves it one instruction further and
/// hands the key to the waiting register.
pub proof fn law_key_press_ends_wait(m: Machine, x: u8, k: u8, random: u8)
    requires
        m.wf(),
        x < REGISTER_COUNT,
        k < KEY_COUNT,
        m.awaiting_key is None,
        !m.keys[k as int],
    ensures
        m.step(Instruction::WaitKey { x }, random) matches Ok(waiting) ==> {
            &&& waiting.pc == m.pc
            &&& waiting.awaiting_key == Some(x)
            &&& waiting.execute(random) == Ok::<Machine, Chip8Error>(waiting)
            &&& waiting.key_down(k).pc == m.pc + OPCODE_SIZE
            &&& waiting.key_down(k).reg(x) == k
            &&& waiting.key_down(k).awaiting_key is None
        },
{
}

/// A call followed at once by a return brings the program counter to the
/// instruction after the call and the stack back to what it was; nothing
/// else has changed. Both succeed where the call and the return lie in
/// memory and the stack has room.
pub proof fn law_call_then_return(m: Machine, nnn: u16, random: u8)
    requires
        m.wf(),
        nnn < 0x1000,
    ensures
        m.step(Instruction::Call { nnn }, random) matches Ok(called) ==> (called.step(
            Instruction::Ret,
            random,
        ) matches Ok(back) ==> {
            &&& back.pc == m.pc + OPCODE_SIZE
            &&& back.stack.len() == m.stack.len()
            &&& back == (Machine { pc: m.pc + OPCODE_SIZE, ..m })
        }),
        m.pc_in_memory() && m.stack.len() < STACK_DEPTH && nnn + 1 < MEMORY_SIZE ==> {
            &&& m.step(Instruction::Call { nnn }, random) matches Ok(called)
            &&& called.step(Instruction::Ret, random) is Ok
        },
{
}

/// The machine after `DRW Vx, Vy, n` was executed twice in a row, where
/// both draws succeed and find the same coordinates.
pub open spec fn drawn_twice(m: Machine, x: u8, y: u8, n: u8, random: u8) -> Option<
    (Machine, Machine),
> {
    match m.step(Instruction::Draw { x, y, n }, random) {
        Ok(once) => if once.reg(x) == m.reg(x) && once.reg(y) == m.reg(y) {
            match once.step(Instruction::Draw { x, y, n }, random) {
                Ok(twice) => Some((once, twice)),
                Err(_) => None,
            }
        } else {
            None
        },
        Err(_) => None,
    }
}

/// Drawing the same sprite twice at the same coordinates gives back the
/// framebuffer that was there before the first draw. The second draw sets
/// `VF` to 1 exactly when the sprite has a set bit on a pixel that was
/// unlit before the first draw, and to 0 otherwise.
pub proof fn law_draw_twice_restores(m: Machine, x: u8, y: u8, n: u8, random: u8)
    requires
        m.wf(),
        (Instruction::Draw { x, y, n }).wf(),
    ensures
        drawn_twice(m, x, y, n, random) matches Some((once, twice)) ==> {
            &&& twice.framebuffer == m.framebuffer
            &&& twice.reg(FLAG) == 1 <==> collides(
                once.framebuffer,
                m.sprite(n),
                m.reg(x) as int,
                m.reg(y) as int,
            )
            &&& twice.reg(FLAG) == 1 <==> exists|p: int|
                0 <= p < SCREEN_SIZE && !m.framebuffer[p] && #[trigger] sprite_lights(
                    m.sprite(n),
                    m.reg(x) as int,
                    m.reg(y) as int,
                    p,
                )
            &&& twice.reg(FLAG) == 0 || twice.reg(FLAG) == 1
        },
{
    let rows = m.sprite(n);
    lemma_blit_is_involution(m.framebuffer, rows, m.reg(x) as int, m.reg(y) as int);
    lemma_second_blit_collision(m.framebuffer, rows, m.reg(x) as int, m.reg(y) as int);
}

/// Two draws in a row find the same coordinates where neither coordinate
/// register is the flag register, and succeed where both instructions and
/// the sprite lie in memory.
pub proof fn law_draw_twice_happens(m: Machine, x: u8, y: u8, n: u8, random: u8)
    requires
        m.wf(),
        (Instruction::Draw { x, y, n }).wf(),
        x != FLAG,
        y != FLAG,
        m.pc + OPCODE_SIZE + 1 < MEMORY_SIZE,
        m.index + n <= MEMORY_SIZE,
    ensures
        drawn_twice(m, x, y, n, random) is Some,
{
}

/// A sprite that shows at least one pixel and was drawn onto unlit pixels
/// stands fully lit; drawing it again at the same coordinates collides.
pub proof fn law_erasing_a_lit_sprite_collides(m: Machine, x: u8, y: u8, n: u8, random: u8)
    requires
        m.wf(),
        (Instruction::Draw { x, y, n }).wf(),
        exists|p: int|
            0 <= p < SCREEN_SIZE && #[trigger] sprite_lights(
                m.sprite(n),
                m.reg(x) as int,
                m.reg(y) as int,
                p,
            ),
        !collides(m.framebuffer, m.sprite(n), m.reg(x) as int, m.reg(y) as int),
    ensures
        drawn_twice(m, x, y, n, random) matches Some((once, twice)) ==> once.reg(FLAG) == 0
            && twice.reg(FLAG) == 1 && twice.framebuffer == m.framebuffer,
{
    let rows = m.sprite(n);
    lemma_blit_is_involution(m.framebuffer, rows, m.reg(x) as int, m.reg(y) as int);
    lemma_erasing_collides(m.framebuffer, rows, m.reg(x) as int, m.reg(y) as int);
}

/// Every instruction keeps a well-formed machine well-formed: the stack
/// never holds more than sixteen addresses, and memory, registers, keypad
/// and framebuffer keep their sizes.
pub proof fn law_step_keeps_wf(m: Machine, instr: Instruction, random: u8)
    requires
        m.wf(),
        instr.wf(),
        m.awaiting_key is None,
    ensures
        m.step(instr, random) matches Ok(next) ==> next.wf(),
{
}

/// A machine is well-formed at power-on and stays so whatever is done to
/// it: loading, fetching, executing, key events and timer ticks.
pub proof fn law_machine_stays_wf(m: Machine, random: u8, key: u8, ticks: nat, rom: Seq<u8>)
    requires
        m.wf(),
    ensures
        Machine::initial().wf(),
        m.with_font().wf(),
        rom.len() <= MAX_ROM_SIZE ==> m.with_rom(rom).wf(),
        m.fetch() matches Ok(next) ==> next.wf(),
        m.execute(random) matches Ok(next) ==> next.wf(),
        key < KEY_COUNT ==> m.key_down(key).wf() && m.key_up(key).wf(),
        m.run_timers(ticks).wf(),
{
    lemma_decoded_is_wf(m.opcode);
    if m.awaiting_key is None {
        match spec_decode(m.opcode) {
            Some(instr) => {
                law_step_keeps_wf(m, instr, random);
            },
            None => {},
        }
    }
}

/// The font region holds sixteen glyphs and ends before the ROM base; the
/// largest ROM ends with the last byte of memory. Loading a ROM leaves
/// everything below the ROM base as it was, and the glyph of every
/// hexadecimal digit lies inside the font region.
pub proof fn law_memory_layout(m: Machine, rom: Seq<u8>, x: u8)
    requires
        m.wf(),
        rom.len() <= MAX_ROM_SIZE,
        x < REGISTER_COUNT,
    ensures
        font_table().len() == FONT_SIZE == 16 * GLYPH_SIZE,
        FONT_ADDR + FONT_SIZE <= START_ADDR,
        START_ADDR + MAX_ROM_SIZE == MEMORY_SIZE,
        forall|a: int| 0 <= a < START_ADDR ==> m.with_rom(rom).memory[a] == m.memory[a],
        forall|i: int| 0 <= i < rom.len() ==> m.with_rom(rom).memory[START_ADDR + i] == rom[i],
        m.reg(x) < 16 ==> FONT_ADDR <= m.glyph(x).index && m.glyph(x).index + GLYPH_SIZE
            <= FONT_ADDR + FONT_SIZE,
{
}

/// Only `RND` reads the random byte.
pub proof fn law_random_matters_to_rnd_alone(m: Machine, a: u8, b: u8)
    requires
        !m.reads_random(),
    ensures
        m.execute(a) == m.execute(b),
{
}

/// A timer never grows, loses exactly one per tick while it runs, and
/// stays at zero once it is there.
pub proof fn law_timer_runs_down(timer: u8, ticks: nat, more: nat)
    ensures
        timer_after(timer, ticks) <= timer,
        ticks <= timer ==> timer_after(timer, ticks) == timer - ticks,
        ticks >= timer ==> timer_after(timer, ticks) == 0,
        timer_after(0, more) == 0,
        timer_after(timer_after(timer, ticks), more) == timer_after(timer, ticks + more),
{
}

/// The timers tick once for every 16 ms that have passed on the clock,
/// however the time arrives: in one piece or in two.
pub proof fn law_time_adds_up(e: EmulatorModel, first: nat, second: nat)
    requires
        e.clock < TIMER_PERIOD,
    ensures
        e.elapse(first).elapse(second) == e.elapse(first + second),
        e.elapse(first).clock < TIMER_PERIOD,
{
    let period = TIMER_PERIOD as nat;
    let total = e.clock + first;
    law_timer_runs_down(
        e.machine.delay_timer,
        total / period,
        (total % period + second) / period,
    );
    law_timer_runs_down(
        e.machine.sound_timer,
        total / period,
        (total % period + second) / period,
    );
}

/// On a clock that starts at zero, a timer that holds `timer` is at zero
/// after `timer` periods of 16 ms and not before, and stays there.
pub proof fn law_timer_reaches_zero_on_time(e: EmulatorModel, nanos: nat)
    requires
        e.clock == 0,
    ensures
        nanos >= e.machine.delay_timer * TIMER_PERIOD ==> e.elapse(nanos).machine.delay_timer == 0,
        nanos < e.machine.delay_timer * TIMER_PERIOD ==> e.elapse(nanos).machine.delay_timer > 0,
{
}

} // verus!
