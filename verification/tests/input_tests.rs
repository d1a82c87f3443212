use chip8::cpu::Chip8;
use chip8::emulator::{Emulator, Tile};
use chip8::error::Chip8Error;
use chip8::input::Keys;
use chip8::instruction::{decode, Instruction};

fn keypad_machine(program: &[u8]) -> Chip8 {
    let mut chip = Chip8::init();
    chip.load_rom(program).unwrap();
    chip
}

const ALL_KEYS: [(Keys, u8); 16] = [
    (Keys::Key1, 0x1),
    (Keys::Key2, 0x2),
    (Keys::Key3, 0x3),
    (Keys::Key4, 0xC),
    (Keys::KeyQ, 0x4),
    (Keys::KeyW, 0x5),
    (Keys::KeyE, 0x6),
    (Keys::KeyR, 0xD),
    (Keys::KeyA, 0x7),
    (Keys::KeyS, 0x8),
    (Keys::KeyD, 0x9),
    (Keys::KeyF, 0xE),
    (Keys::KeyZ, 0xA),
    (Keys::KeyX, 0x0),
    (Keys::KeyC, 0xB),
    (Keys::KeyV, 0xF),
];

#[test]
fn physical_keys_map_onto_the_keypad() {
    for (key, slot) in ALL_KEYS {
        assert_eq!(key.index(), slot);
    }
}

#[test]
fn physical_keys_cover_every_slot_once() {
    let mut seen = [false; 16];
    for (key, _) in ALL_KEYS {
        let slot = key.index() as usize;
        assert!(!seen[slot]);
        seen[slot] = true;
    }
    assert!(seen.iter().all(|hit| *hit));
}

#[test]
fn key_down_and_up_set_and_clear_the_latch() {
    let mut chip = Chip8::init();
    assert_eq!(chip.key_down(0xA), Ok(()));
    assert!(chip.key[0xA]);
    assert_eq!(chip.key.iter().filter(|down| **down).count(), 1);
    assert_eq!(chip.key_up(0xA), Ok(()));
    assert_eq!(chip.key, [false; 16]);
    assert_eq!(chip.pc(), 0x200);
}

#[test]
fn key_slot_outside_the_keypad_is_refused() {
    let mut chip = Chip8::init();
    assert_eq!(chip.key_down(16), Err(Chip8Error::OutOfBounds));
    assert_eq!(chip.key_up(16), Err(Chip8Error::OutOfBounds));
    assert_eq!(chip.key_down(255), Err(Chip8Error::OutOfBounds));
    assert_eq!(chip.key, [false; 16]);
}

#[test]
fn skip_if_key_down() {
    let mut chip = keypad_machine(&[0x60, 0x05, 0xE0, 0x9E]);
    chip.key_down(5).unwrap();
    chip.cycle().unwrap();
    chip.cycle().unwrap();
    assert_eq!(chip.pc(), 0x206);
    let mut chip = keypad_machine(&[0x60, 0x05, 0xE0, 0x9E]);
    chip.key_down(6).unwrap();
    chip.cycle().unwrap();
    chip.cycle().unwrap();
    assert_eq!(chip.pc(), 0x204);
}

#[test]
fn skip_if_key_up() {
    let mut chip = keypad_machine(&[0x60, 0x05, 0xE0, 0xA1]);
    chip.cycle().unwrap();
    chip.cycle().unwrap();
    assert_eq!(chip.pc(), 0x206);
    let mut chip = keypad_machine(&[0x60, 0x05, 0xE0, 0xA1]);
    chip.key_down(5).unwrap();
    chip.cycle().unwrap();
    chip.cycle().unwrap();
    assert_eq!(chip.pc(), 0x204);
}

#[test]
fn key_skips_refuse_a_register_beyond_the_keypad() {
    let mut chip = keypad_machine(&[0x60, 0x10, 0xE0, 0x9E]);
    chip.cycle().unwrap();
    assert_eq!(chip.cycle(), Err(Chip8Error::OutOfBounds));
    assert_eq!(chip.pc(), 0x202);
    let mut chip = keypad_machine(&[0x60, 0xFF, 0xE0, 0xA1]);
    chip.cycle().unwrap();
    assert_eq!(chip.cycle(), Err(Chip8Error::OutOfBounds));
    assert_eq!(chip.pc(), 0x202);
}

#[test]
fn wait_key_suspends_until_a_key_is_pressed() {
    let mut chip = keypad_machine(&[0xF3, 0x0A, 0x61, 0x01]);
    chip.cycle().unwrap();
    assert_eq!(chip.awaiting_key(), Some(3));
    assert_eq!(chip.pc(), 0x200);
    for _ in 0..5 {
        assert_eq!(chip.cycle(), Ok(()));
        assert_eq!(chip.pc(), 0x200);
        assert_eq!(chip.registers()[1], 0);
    }
    chip.tick_timers(1);
    chip.key_down(0xB).unwrap();
    assert_eq!(chip.awaiting_key(), None);
    assert_eq!(chip.registers()[3], 0xB);
    assert_eq!(chip.pc(), 0x202);
    chip.cycle().unwrap();
    assert_eq!(chip.registers()[1], 1);
    assert_eq!(chip.pc(), 0x204);
}

#[test]
fn wait_key_ignores_a_key_that_is_held() {
    let mut chip = keypad_machine(&[0xF3, 0x0A]);
    chip.key_down(4).unwrap();
    chip.cycle().unwrap();
    assert_eq!(chip.awaiting_key(), Some(3));
    chip.key_down(4).unwrap();
    assert_eq!(chip.awaiting_key(), Some(3));
    assert_eq!(chip.pc(), 0x200);
    chip.key_up(4).unwrap();
    assert_eq!(chip.awaiting_key(), Some(3));
    chip.key_down(4).unwrap();
    assert_eq!(chip.awaiting_key(), None);
    assert_eq!(chip.registers()[3], 4);
    assert_eq!(chip.pc(), 0x202);
}

#[test]
fn wait_key_takes_key_zero() {
    let mut chip = keypad_machine(&[0x65, 0x09, 0xF5, 0x0A]);
    chip.cycle().unwrap();
    chip.cycle().unwrap();
    chip.key_down(0).unwrap();
    assert_eq!(chip.registers()[5], 0);
    assert_eq!(chip.pc(), 0x204);
}

#[test]
fn timers_count_down_to_zero_and_stay() {
    let mut chip = Chip8::init();
    chip.delay_timer = 5;
    chip.sound_timer = 2;
    chip.tick_timers(1);
    assert_eq!((chip.delay_timer, chip.sound_timer), (4, 1));
    chip.tick_timers(1);
    assert_eq!((chip.delay_timer, chip.sound_timer), (3, 0));
    chip.tick_timers(1);
    assert_eq!((chip.delay_timer, chip.sound_timer), (2, 0));
    chip.tick_timers(2);
    assert_eq!((chip.delay_timer, chip.sound_timer), (0, 0));
    chip.tick_timers(1);
    assert_eq!((chip.delay_timer, chip.sound_timer), (0, 0));
    chip.tick_timers(u64::MAX);
    assert_eq!((chip.delay_timer, chip.sound_timer), (0, 0));
    chip.delay_timer = 255;
    chip.tick_timers(0);
    assert_eq!(chip.delay_timer, 255);
    chip.tick_timers(254);
    assert_eq!(chip.delay_timer, 1);
}

fn emulator_with_delay(delay: u8) -> Emulator {
    let mut emulator = Emulator::new();
    emulator.chip8.load_rom(&[0x60, delay, 0xF0, 0x15, 0xF0, 0x18, 0x12, 0x06]).unwrap();
    for _ in 0..3 {
        emulator.update().unwrap();
    }
    assert_eq!(emulator.chip8.delay_timer, delay);
    emulator
}

#[test]
fn delay_timer_reaches_zero_after_five_periods() {
    let mut emulator = emulator_with_delay(5);
    for expected in [4u8, 3, 2, 1, 0] {
        emulator.elapse(16_000_000);
        assert_eq!(emulator.chip8.delay_timer, expected);
        assert_eq!(emulator.chip8.sound_timer, expected);
    }
    emulator.elapse(16_000_000);
    assert_eq!(emulator.chip8.delay_timer, 0);
    emulator.elapse(1_000_000_000);
    assert_eq!(emulator.chip8.delay_timer, 0);
    assert_eq!(emulator.chip8.sound_timer, 0);
}

#[test]
fn delay_timer_ticks_once_per_period_in_small_steps() {
    let mut emulator = emulator_with_delay(5);
    for step in 1..=40 {
        emulator.elapse(2_000_000);
        assert_eq!(emulator.chip8.delay_timer, 5 - (step / 8) as u8);
    }
    assert_eq!(emulator.chip8.delay_timer, 0);
}

#[test]
fn delay_timer_does_not_tick_before_a_period_ends() {
    let mut emulator = emulator_with_delay(5);
    emulator.elapse(15_999_999);
    assert_eq!(emulator.chip8.delay_timer, 5);
    emulator.elapse(1);
    assert_eq!(emulator.chip8.delay_timer, 4);
    emulator.elapse(31_999_999);
    assert_eq!(emulator.chip8.delay_timer, 3);
    emulator.elapse(1);
    assert_eq!(emulator.chip8.delay_timer, 2);
}

#[test]
fn delay_timer_takes_several_periods_at_once() {
    let mut emulator = emulator_with_delay(200);
    emulator.elapse(5 * 16_000_000 + 123);
    assert_eq!(emulator.chip8.delay_timer, 195);
    emulator.elapse(u64::MAX);
    assert_eq!(emulator.chip8.delay_timer, 0);
}

#[test]
fn time_spent_at_zero_is_not_saved_up() {
    let mut emulator = Emulator::new();
    emulator.chip8.load_rom(&[0x12, 0x02, 0x60, 3, 0xF0, 0x15, 0x12, 0x06]).unwrap();
    emulator.update().unwrap();
    emulator.elapse(10 * 16_000_000);
    emulator.update().unwrap();
    emulator.update().unwrap();
    assert_eq!(emulator.chip8.delay_timer, 3);
    emulator.elapse(15_999_999);
    assert_eq!(emulator.chip8.delay_timer, 3);
    emulator.elapse(1);
    assert_eq!(emulator.chip8.delay_timer, 2);
}

#[test]
fn pause_fills_the_cycle_period() {
    let emulator = Emulator::new();
    assert_eq!(emulator.pause_for(0), 2_000_000);
    assert_eq!(emulator.pause_for(500_000), 1_500_000);
    assert_eq!(emulator.pause_for(2_000_000), 0);
    assert_eq!(emulator.pause_for(2_000_001), 0);
    assert_eq!(emulator.pause_for(u64::MAX), 0);
}

#[test]
fn pause_follows_the_set_cadence() {
    let mut emulator = Emulator::new();
    emulator.set_cycle_period(1_000_000);
    assert_eq!(emulator.pause_for(250_000), 750_000);
    assert_eq!(emulator.pause_for(1_000_001), 0);
    emulator.set_cycle_period(0);
    assert_eq!(emulator.pause_for(0), 0);
    assert_eq!(emulator.chip8.pc(), 0x200);
}

#[test]
fn emulator_starts_with_a_machine_at_power_on() {
    let emulator = Emulator::new();
    assert_eq!(emulator.chip8.pc(), 0x200);
    assert_eq!(emulator.chip8.memory()[0x50], 0xF0);
    assert_eq!(emulator.chip8.stack_depth(), 0);
}

#[test]
fn emulator_update_runs_one_cycle() {
    let mut emulator = Emulator::new();
    emulator.chip8.load_rom(&[0x6A, 0x05, 0xFF, 0xFF]).unwrap();
    assert_eq!(emulator.update(), Ok(()));
    assert_eq!(emulator.chip8.registers()[10], 5);
    assert_eq!(emulator.chip8.pc(), 0x202);
    assert_eq!(emulator.update(), Err(Chip8Error::UnknownOpcode(0xFFFF, 0x202)));
}

#[test]
fn emulator_key_events_reach_the_keypad() {
    let mut emulator = Emulator::new();
    emulator.key_down_event(Keys::Key4);
    emulator.key_down_event(Keys::KeyX);
    let mut expected = [false; 16];
    expected[0xC] = true;
    expected[0x0] = true;
    assert_eq!(emulator.chip8.key, expected);
    emulator.key_up_event(Keys::Key4);
    expected[0xC] = false;
    assert_eq!(emulator.chip8.key, expected);
    emulator.key_up_event(Keys::KeyX);
    assert_eq!(emulator.chip8.key, [false; 16]);
}

#[test]
fn emulator_key_event_ends_a_wait() {
    let mut emulator = Emulator::new();
    emulator.chip8.load_rom(&[0xF7, 0x0A]).unwrap();
    emulator.update().unwrap();
    assert_eq!(emulator.chip8.awaiting_key(), Some(7));
    emulator.update().unwrap();
    assert_eq!(emulator.chip8.pc(), 0x200);
    emulator.key_down_event(Keys::KeyV);
    assert_eq!(emulator.chip8.awaiting_key(), None);
    assert_eq!(emulator.chip8.registers()[7], 0xF);
    assert_eq!(emulator.chip8.pc(), 0x202);
}

#[test]
fn emulator_draw_hands_out_a_changed_frame_once() {
    let mut emulator = Emulator::new();
    assert_eq!(emulator.draw(), None);
    emulator.chip8.load_rom(&[0x60, 1, 0x61, 2, 0xA2, 0x08, 0xD0, 0x11, 0x80]).unwrap();
    for _ in 0..4 {
        emulator.update().unwrap();
    }
    let frame = emulator.draw().unwrap();
    assert_eq!(frame.len(), 2048);
    for row in 0..32 {
        for column in 0..64 {
            let expected = Tile {
                x: column * 20,
                y: row * 20,
                side: 20,
                lit: row == 2 && column == 1,
            };
            assert_eq!(frame[row * 64 + column], expected);
        }
    }
    assert!(!emulator.chip8.update_screen);
    assert_eq!(emulator.draw(), None);
    assert!(emulator.chip8.gfx[2 * 64 + 1]);
}

#[test]
fn random_with_an_empty_mask_is_zero() {
    let mut chip = keypad_machine(&[0x60, 0xAA, 0xC0, 0x00]);
    chip.cycle().unwrap();
    chip.cycle().unwrap();
    assert_eq!(chip.registers()[0], 0);
    assert_eq!(chip.pc(), 0x204);
}

#[test]
fn random_stays_within_its_mask_and_its_range() {
    let mut seen = [false; 256];
    for _ in 0..4000 {
        let mut chip = Chip8::init();
        chip.opcode = 0xC30F;
        chip.decode_opcode().unwrap();
        assert!(chip.registers()[3] <= 0x0F);
        chip.opcode = 0xC4FF;
        chip.decode_opcode().unwrap();
        assert!(chip.registers()[4] < 0xFE);
        seen[chip.registers()[4] as usize] = true;
    }
    assert!(seen.iter().filter(|hit| **hit).count() > 100);
}

#[test]
fn execute_masks_the_given_random_byte() {
    let mut chip = Chip8::init();
    chip.opcode = 0xC23C;
    assert_eq!(chip.execute(0xA5), Ok(()));
    assert_eq!(chip.registers()[2], 0xA5 & 0x3C);
    assert_eq!(chip.pc(), 0x202);
    chip.opcode = 0xC2FF;
    assert_eq!(chip.execute(0xFF), Ok(()));
    assert_eq!(chip.registers()[2], 0xFF);
}

#[test]
fn execute_ignores_the_random_byte_elsewhere() {
    let mut first = Chip8::init();
    let mut second = Chip8::init();
    first.opcode = 0x6A11;
    second.opcode = 0x6A11;
    first.execute(0).unwrap();
    second.execute(0xFF).unwrap();
    assert_eq!(first.registers(), second.registers());
    assert_eq!(first.pc(), second.pc());
}

#[test]
fn decode_splits_the_opcode_into_its_fields() {
    assert_eq!(decode(0x00E0), Some(Instruction::Cls));
    assert_eq!(decode(0x00EE), Some(Instruction::Ret));
    assert_eq!(decode(0x1ABC), Some(Instruction::Jmp { nnn: 0xABC }));
    assert_eq!(decode(0x2ABC), Some(Instruction::Call { nnn: 0xABC }));
    assert_eq!(decode(0x3A7F), Some(Instruction::SkeqConst { x: 0xA, nn: 0x7F }));
    assert_eq!(decode(0x4A7F), Some(Instruction::SkneConst { x: 0xA, nn: 0x7F }));
    assert_eq!(decode(0x5AB0), Some(Instruction::SkeqReg { x: 0xA, y: 0xB }));
    assert_eq!(decode(0x6A7F), Some(Instruction::LdConst { x: 0xA, nn: 0x7F }));
    assert_eq!(decode(0x7A7F), Some(Instruction::AddConst { x: 0xA, nn: 0x7F }));
    assert_eq!(decode(0x8AB0), Some(Instruction::Mov { x: 0xA, y: 0xB }));
    assert_eq!(decode(0x8AB1), Some(Instruction::Or { x: 0xA, y: 0xB }));
    assert_eq!(decode(0x8AB2), Some(Instruction::And { x: 0xA, y: 0xB }));
    assert_eq!(decode(0x8AB3), Some(Instruction::Xor { x: 0xA, y: 0xB }));
    assert_eq!(decode(0x8AB4), Some(Instruction::Add { x: 0xA, y: 0xB }));
    assert_eq!(decode(0x8AB5), Some(Instruction::Sub { x: 0xA, y: 0xB }));
    assert_eq!(decode(0x8AB6), Some(Instruction::Shr { x: 0xA }));
    assert_eq!(decode(0x8AB7), Some(Instruction::Subn { x: 0xA, y: 0xB }));
    assert_eq!(decode(0x8ABE), Some(Instruction::Shl { x: 0xA }));
    assert_eq!(decode(0x9AB0), Some(Instruction::SkneReg { x: 0xA, y: 0xB }));
    assert_eq!(decode(0xAABC), Some(Instruction::LdI { nnn: 0xABC }));
    assert_eq!(decode(0xBABC), Some(Instruction::JmpV0 { nnn: 0xABC }));
    assert_eq!(decode(0xCA7F), Some(Instruction::Rnd { x: 0xA, nn: 0x7F }));
    assert_eq!(decode(0xDAB5), Some(Instruction::Draw { x: 0xA, y: 0xB, n: 5 }));
    assert_eq!(decode(0xEA9E), Some(Instruction::SkeqKey { x: 0xA }));
    assert_eq!(decode(0xEAA1), Some(Instruction::SkneKey { x: 0xA }));
    assert_eq!(decode(0xFA07), Some(Instruction::LdDelay { x: 0xA }));
    assert_eq!(decode(0xFA0A), Some(Instruction::WaitKey { x: 0xA }));
    assert_eq!(decode(0xFA15), Some(Instruction::SetDelay { x: 0xA }));
    assert_eq!(decode(0xFA18), Some(Instruction::SetSound { x: 0xA }));
    assert_eq!(decode(0xFA1E), Some(Instruction::AddI { x: 0xA }));
    assert_eq!(decode(0xFA29), Some(Instruction::Font { x: 0xA }));
    assert_eq!(decode(0xFA33), Some(Instruction::Bcd { x: 0xA }));
    assert_eq!(decode(0xFA55), Some(Instruction::RegDump { x: 0xA }));
    assert_eq!(decode(0xFA65), Some(Instruction::RegLoad { x: 0xA }));
}

#[test]
fn decode_knows_no_other_opcode() {
    let mut known = 0usize;
    for word in 0..=0xFFFFu16 {
        if decode(word).is_some() {
            known += 1;
        }
    }
    // CLS and RET, ten families told apart by the high nibble alone, two
    // register skips and nine register operations told apart by the low
    // nibble too, two key skips and nine of family F by the low byte
    assert_eq!(known, 2 + 10 * 4096 + 2 * 256 + 9 * 256 + 2 * 16 + 9 * 16);
    assert_eq!(decode(0x0000), None);
    assert_eq!(decode(0x00E1), None);
    assert_eq!(decode(0x5AB1), None);
    assert_eq!(decode(0x8AB8), None);
    assert_eq!(decode(0x9AB1), None);
    assert_eq!(decode(0xEA9F), None);
    assert_eq!(decode(0xFA00), None);
    assert_eq!(decode(0xFAFF), None);
}
