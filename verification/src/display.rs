use vstd::prelude::*;

verus! {

/// Pixels in a framebuffer row.
pub const SCREEN_WIDTH: usize = 64;

/// Rows in the framebuffer.
pub const SCREEN_HEIGHT: usize = 32;

/// Pixels in the framebuffer, stored row by row.
pub const SCREEN_SIZE: usize = 2048;

/// Pixels in a sprite row.
pub const SPRITE_WIDTH: usize = 8;

/// Whether bit `column` of a sprite row is set, counting from the most
/// significant bit.
pub open spec fn sprite_bit(row: u8, column: int) -> bool {
    row & (0x80u8 >> (column as u8)) != 0
}

/// The framebuffer position that cell (`row`, `column`) of a sprite drawn at
/// (`x`, `y`) lands on. Coordinates wrap round the screen edges.
pub open spec fn target(x: int, y: int, row: int, column: int) -> int {
    (x + column) % (SCREEN_WIDTH as int) + ((y + row) % (SCREEN_HEIGHT as int)) * SCREEN_WIDTH
}

/// The sprite column that lands on framebuffer position `p`, if any does,
/// for a sprite drawn at column `x`.
pub open spec fn column_at(x: int, p: int) -> int {
    (p % (SCREEN_WIDTH as int) - x) % (SCREEN_WIDTH as int)
}

/// The sprite row that lands on framebuffer position `p`, if any does, for
/// a sprite drawn at row `y`.
pub open spec fn row_at(y: int, p: int) -> int {
    (p / (SCREEN_WIDTH as int) - y) % (SCREEN_HEIGHT as int)
}

/// Whether the sprite `rows`, drawn at (`x`, `y`), has a set bit on
/// framebuffer position `p`. A sprite is narrower and shorter than the
/// screen, so at most one of its cells lands on `p`.
pub open spec fn sprite_lights(rows: Seq<u8>, x: int, y: int, p: int) -> bool {
    &&& column_at(x, p) < SPRITE_WIDTH
    &&& row_at(y, p) < rows.len()
    &&& sprite_bit(rows[row_at(y, p)], column_at(x, p))
}

/// The framebuffer after the sprite is XORed onto it.
pub open spec fn blit(fb: Seq<bool>, rows: Seq<u8>, x: int, y: int) -> Seq<bool> {
    Seq::new(fb.len(), |p: int| fb[p] != sprite_lights(rows, x, y, p))
}

/// Whether any set bit of the sprite lands on a pixel that is already lit.
pub open spec fn collides(fb: Seq<bool>, rows: Seq<u8>, x: int, y: int) -> bool {
    exists|p: int| 0 <= p < fb.len() && fb[p] && #[trigger] sprite_lights(rows, x, y, p)
}

/// Cell (`row`, `column`) of a sprite lands on `target(x, y, row, column)`
/// and on no other position, and lights it exactly when its bit is set.
pub proof fn lemma_cell_lands_on_target(rows: Seq<u8>, x: int, y: int, row: int, column: int)
    requires
        rows.len() < SCREEN_HEIGHT,
        0 <= row < rows.len(),
        0 <= column < SPRITE_WIDTH,
        0 <= x,
        0 <= y,
    ensures
        0 <= target(x, y, row, column) < SCREEN_SIZE,
        column_at(x, target(x, y, row, column)) == column,
        row_at(y, target(x, y, row, column)) == row,
        sprite_lights(rows, x, y, target(x, y, row, column)) == sprite_bit(rows[row], column),
        forall|p: int|
            0 <= p < SCREEN_SIZE && column_at(x, p) == column && row_at(y, p) == row ==> p == target(
                x,
                y,
                row,
                column,
            ),
{
}

/// Drawing the same sprite twice at the same place gives back the
/// framebuffer that was there before.
pub proof fn lemma_blit_is_involution(fb: Seq<bool>, rows: Seq<u8>, x: int, y: int)
    ensures
        blit(blit(fb, rows, x, y), rows, x, y) == fb,
{
}

/// The second of two equal draws collides exactly when the sprite has a set
/// bit on a pixel that was unlit before the first.
pub proof fn lemma_second_blit_collision(fb: Seq<bool>, rows: Seq<u8>, x: int, y: int)
    ensures
        collides(blit(fb, rows, x, y), rows, x, y) <==> exists|p: int|
            0 <= p < fb.len() && !fb[p] && #[trigger] sprite_lights(rows, x, y, p),
{
}

/// A sprite that shows at least one pixel and was drawn without collision
/// stands fully lit, so drawing it again collides.
pub proof fn lemma_erasing_collides(fb: Seq<bool>, rows: Seq<u8>, x: int, y: int)
    requires
        exists|p: int| 0 <= p < fb.len() && #[trigger] sprite_lights(rows, x, y, p),
        !collides(fb, rows, x, y),
    ensures
        collides(blit(fb, rows, x, y), rows, x, y),
{
    lemma_second_blit_collision(fb, rows, x, y);
}

/// Whether the sprite has a set bit on position `p` in a cell that a
/// row-by-row, left-to-right walk reaches before cell (`rows_done`,
/// `columns_done`).
pub open spec fn lit_so_far(
    rows: Seq<u8>,
    x: int,
    y: int,
    p: int,
    rows_done: int,
    columns_done: int,
) -> bool {
    &&& sprite_lights(rows, x, y, p)
    &&& (row_at(y, p) < rows_done || (row_at(y, p) == rows_done && column_at(x, p)
        < columns_done))
}

/// Whether a cell reached before (`rows_done`, `columns_done`) has a set
/// bit on a pixel of `fb` that is lit.
pub open spec fn collides_so_far(
    fb: Seq<bool>,
    rows: Seq<u8>,
    x: int,
    y: int,
    rows_done: int,
    columns_done: int,
) -> bool {
    exists|p: int|
        0 <= p < fb.len() && fb[p] && #[trigger] lit_so_far(rows, x, y, p, rows_done, columns_done)
}

/// The framebuffer when the walk over the sprite has reached cell
/// (`rows_done`, `columns_done`).
pub open spec fn blit_so_far(
    fb: Seq<bool>,
    rows: Seq<u8>,
    x: int,
    y: int,
    rows_done: int,
    columns_done: int,
) -> Seq<bool> {
    Seq::new(fb.len(), |p: int| fb[p] != lit_so_far(rows, x, y, p, rows_done, columns_done))
}

/// Before the walk starts nothing is drawn; after the last row the whole
/// sprite is.
pub proof fn lemma_walk_ends(fb: Seq<bool>, rows: Seq<u8>, x: int, y: int)
    ensures
        blit_so_far(fb, rows, x, y, 0, 0) == fb,
        !collides_so_far(fb, rows, x, y, 0, 0),
        blit_so_far(fb, rows, x, y, rows.len() as int, 0) == blit(fb, rows, x, y),
        collides_so_far(fb, rows, x, y, rows.len() as int, 0) == collides(fb, rows, x, y),
{
    if collides(fb, rows, x, y) {
        let p = choose|p: int| 0 <= p < fb.len() && fb[p] && #[trigger] sprite_lights(rows, x, y, p);
        assert(lit_so_far(rows, x, y, p, rows.len() as int, 0));
    }
}

/// The end of one row is the start of the next.
pub proof fn lemma_walk_next_row(fb: Seq<bool>, rows: Seq<u8>, x: int, y: int, row: int)
    ensures
        blit_so_far(fb, rows, x, y, row, SPRITE_WIDTH as int) == blit_so_far(fb, rows, x, y, row + 1, 0),
        collides_so_far(fb, rows, x, y, row, SPRITE_WIDTH as int) == collides_so_far(
            fb,
            rows,
            x,
            y,
            row + 1,
            0,
        ),
{
    if collides_so_far(fb, rows, x, y, row, SPRITE_WIDTH as int) {
        let p = choose|p: int|
            0 <= p < fb.len() && fb[p] && #[trigger] lit_so_far(rows, x, y, p, row, SPRITE_WIDTH as int);
        assert(lit_so_far(rows, x, y, p, row + 1, 0));
    }
    if collides_so_far(fb, rows, x, y, row + 1, 0) {
        let p = choose|p: int|
            0 <= p < fb.len() && fb[p] && #[trigger] lit_so_far(rows, x, y, p, row + 1, 0);
        assert(lit_so_far(rows, x, y, p, row, SPRITE_WIDTH as int));
    }
}

/// One step of the walk: cell (`row`, `column`) toggles its target if its
/// bit is set, and collides if that target was lit.
pub proof fn lemma_walk_step(fb: Seq<bool>, rows: Seq<u8>, x: int, y: int, row: int, column: int)
    requires
        fb.len() == SCREEN_SIZE,
        rows.len() < SCREEN_HEIGHT,
        0 <= row < rows.len(),
        0 <= column < SPRITE_WIDTH,
        0 <= x,
        0 <= y,
    ensures
        blit_so_far(fb, rows, x, y, row, column)[target(x, y, row, column)] == fb[target(
            x,
            y,
            row,
            column,
        )],
        blit_so_far(fb, rows, x, y, row, column + 1) == if sprite_bit(rows[row], column) {
            blit_so_far(fb, rows, x, y, row, column).update(
                target(x, y, row, column),
                !fb[target(x, y, row, column)],
            )
        } else {
            blit_so_far(fb, rows, x, y, row, column)
        },
        collides_so_far(fb, rows, x, y, row, column + 1) == (collides_so_far(
            fb,
            rows,
            x,
            y,
            row,
            column,
        ) || (sprite_bit(rows[row], column) && fb[target(x, y, row, column)])),
{
    let t = target(x, y, row, column);
    lemma_cell_lands_on_target(rows, x, y, row, column);
    if collides_so_far(fb, rows, x, y, row, column + 1) {
        let p = choose|p: int|
            0 <= p < fb.len() && fb[p] && #[trigger] lit_so_far(rows, x, y, p, row, column + 1);
        if p != t {
            assert(lit_so_far(rows, x, y, p, row, column));
        }
    }
    if collides_so_far(fb, rows, x, y, row, column) {
        let p = choose|p: int|
            0 <= p < fb.len() && fb[p] && #[trigger] lit_so_far(rows, x, y, p, row, column);
        assert(lit_so_far(rows, x, y, p, row, column + 1));
    }
    if sprite_bit(rows[row], column) && fb[t] {
        assert(lit_so_far(rows, x, y, t, row, column + 1));
    }
}

} // verus!
