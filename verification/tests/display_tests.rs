use chip8::cpu::Chip8;
use chip8::error::Chip8Error;

fn screen_machine(program: &[u8]) -> Chip8 {
    let mut chip = Chip8::init();
    chip.load_rom(program).unwrap();
    chip
}

fn step_times(chip: &mut Chip8, cycles: usize) {
    for _ in 0..cycles {
        chip.cycle().unwrap();
    }
}

fn lit_pixels(chip: &Chip8) -> Vec<(usize, usize)> {
    let mut lit = Vec::new();
    for (at, pixel) in chip.gfx.iter().enumerate() {
        if *pixel {
            lit.push((at % 64, at / 64));
        }
    }
    lit
}

#[test]
fn draw_puts_the_most_significant_bit_leftmost() {
    // sprite row 0b1010_0001 at (3, 2)
    let mut chip = screen_machine(&[0x60, 3, 0x61, 2, 0xA2, 0x08, 0xD0, 0x11, 0xA1]);
    step_times(&mut chip, 4);
    assert_eq!(lit_pixels(&chip), vec![(3, 2), (5, 2), (10, 2)]);
    assert_eq!(chip.registers()[0xF], 0);
    assert!(chip.update_screen);
    assert_eq!(chip.pc(), 0x208);
}

#[test]
fn draw_glyph_zero() {
    let mut chip = screen_machine(&[0x60, 0, 0xF0, 0x29, 0xD0, 0x05]);
    step_times(&mut chip, 3);
    let expected = vec![
        (0, 0), (1, 0), (2, 0), (3, 0),
        (0, 1), (3, 1),
        (0, 2), (3, 2),
        (0, 3), (3, 3),
        (0, 4), (1, 4), (2, 4), (3, 4),
    ];
    assert_eq!(lit_pixels(&chip), expected);
}

#[test]
fn draw_wraps_round_both_edges() {
    // sprite of two rows 0xFF at (60, 31)
    let mut chip = screen_machine(&[0x60, 60, 0x61, 31, 0xA2, 0x08, 0xD0, 0x12, 0xFF, 0xFF]);
    step_times(&mut chip, 4);
    let mut expected = Vec::new();
    for x in [0usize, 1, 2, 3, 60, 61, 62, 63] {
        expected.push((x, 0));
    }
    for x in [0usize, 1, 2, 3, 60, 61, 62, 63] {
        expected.push((x, 31));
    }
    assert_eq!(lit_pixels(&chip), expected);
    assert_eq!(chip.registers()[0xF], 0);
}

#[test]
fn draw_wraps_coordinates_beyond_the_screen() {
    // (64 + 1, 32 + 2) is (1, 2)
    let mut chip = screen_machine(&[0x60, 65, 0x61, 34, 0xA2, 0x08, 0xD0, 0x11, 0x80]);
    step_times(&mut chip, 4);
    assert_eq!(lit_pixels(&chip), vec![(1, 2)]);
}

#[test]
fn draw_twice_restores_the_framebuffer() {
    let mut chip = screen_machine(&[0x60, 10, 0x61, 5, 0x62, 0, 0xF2, 0x29, 0xD0, 0x15, 0xD0, 0x15]);
    step_times(&mut chip, 5);
    assert_eq!(chip.registers()[0xF], 0);
    assert_eq!(lit_pixels(&chip).len(), 14);
    chip.cycle().unwrap();
    assert!(chip.gfx.iter().all(|lit| !lit));
    assert_eq!(chip.registers()[0xF], 1);
}

#[test]
fn draw_twice_restores_a_busy_framebuffer() {
    let mut chip = screen_machine(&[
        0x60, 0, 0xF0, 0x29, 0xD0, 0x05, 0x61, 2, 0x62, 8, 0xF2, 0x29, 0xD1, 0x05, 0xD1, 0x05,
    ]);
    step_times(&mut chip, 3);
    let before = chip.gfx;
    step_times(&mut chip, 4);
    assert_ne!(chip.gfx, before);
    assert_eq!(chip.registers()[0xF], 1);
    chip.cycle().unwrap();
    assert_eq!(chip.gfx, before);
    assert_eq!(chip.registers()[0xF], 1);
}

#[test]
fn collision_anywhere_in_the_sprite_sets_the_flag() {
    // a lone pixel at (0, 0), then a two-row sprite whose first row hits it
    // and whose second row hits nothing
    let mut chip = screen_machine(&[
        0x60, 0, 0xA2, 0x0A, 0xD0, 0x01, 0xA2, 0x0B, 0xD0, 0x02, 0x80, 0x80, 0x40,
    ]);
    step_times(&mut chip, 3);
    assert_eq!(lit_pixels(&chip), vec![(0, 0)]);
    assert_eq!(chip.registers()[0xF], 0);
    step_times(&mut chip, 2);
    assert_eq!(lit_pixels(&chip), vec![(1, 1)]);
    assert_eq!(chip.registers()[0xF], 1);
}

#[test]
fn draw_without_collision_clears_a_stale_flag() {
    let mut chip = screen_machine(&[0x6F, 1, 0x60, 0, 0xA2, 0x08, 0xD0, 0x01, 0x80]);
    step_times(&mut chip, 4);
    assert_eq!(chip.registers()[0xF], 0);
    assert_eq!(lit_pixels(&chip), vec![(0, 0)]);
}

#[test]
fn draw_reads_coordinates_before_it_clears_the_flag() {
    let mut chip = screen_machine(&[0x6F, 7, 0x60, 0, 0xA2, 0x08, 0xDF, 0x01, 0x80]);
    step_times(&mut chip, 4);
    assert_eq!(lit_pixels(&chip), vec![(7, 0)]);
    assert_eq!(chip.registers()[0xF], 0);
}

#[test]
fn draw_of_no_rows_marks_the_frame_and_nothing_else() {
    let mut chip = screen_machine(&[0x6F, 1, 0xAF, 0xFF, 0x60, 1, 0xF0, 0x1E, 0xD0, 0x00]);
    step_times(&mut chip, 5);
    assert!(chip.gfx.iter().all(|lit| !lit));
    assert!(chip.update_screen);
    assert_eq!(chip.registers()[0xF], 0);
    assert_eq!(chip.pc(), 0x20A);
}

#[test]
fn draw_past_the_end_of_memory_is_out_of_bounds() {
    let mut chip = screen_machine(&[0x6F, 1, 0xAF, 0xFF, 0xD0, 0x02]);
    step_times(&mut chip, 2);
    assert_eq!(chip.cycle(), Err(Chip8Error::OutOfBounds));
    assert!(chip.gfx.iter().all(|lit| !lit));
    assert!(!chip.update_screen);
    assert_eq!(chip.registers()[0xF], 1);
    assert_eq!(chip.pc(), 0x204);
}

#[test]
fn draw_up_to_the_last_byte_of_memory() {
    let mut rom = vec![0u8; 3584];
    rom[0] = 0xAF;
    rom[1] = 0xFE;
    rom[2] = 0xD0;
    rom[3] = 0x02;
    rom[3582] = 0x80;
    rom[3583] = 0x01;
    let mut chip = screen_machine(&rom);
    step_times(&mut chip, 2);
    assert_eq!(lit_pixels(&chip), vec![(0, 0), (7, 1)]);
}
