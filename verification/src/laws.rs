//! Laws that relate several operations of the interpreter, stated once
//! and proved from the contracts alone.
use vstd::prelude::*;

use vstd::arithmetic::div_mod::{
    lemma_fundamental_div_mod, lemma_mod_bound, lemma_mod_equivalence, lemma_small_mod,
};

use crate::chip8::{Chip8Error, MachineView};
use crate::chip8_util::{bcd_hundreds, bcd_ones, bcd_tens};
use crate::constants::{
    CHIP8_STACK_MEMORY_SIZE, SCREEN_HEIGHT, SCREEN_SCALE_FACTOR, SCREEN_WIDTH,
};
use crate::screen::{block_index, SCALED_BUFFER_LEN};
use crate::semantics::{
    call_rel, draw_row_erases, draw_row_pixels, draw_sprite_erases, draw_sprite_pixels,
    pixel_index, ret_rel, sprite_row_bit, step_ok, timer_decremented,
};

verus! {

/// The decimal decomposition of a byte yields exactly three digits, each
/// in its digit range, and they reassemble to the byte:
/// 100 * hundreds + 10 * tens + ones == v.
pub proof fn lemma_bcd_digits(v: u8)
    ensures
        bcd_hundreds(v) <= 2,
        bcd_tens(v) <= 9,
        bcd_ones(v) <= 9,
        100 * bcd_hundreds(v) + 10 * bcd_tens(v) + bcd_ones(v) == v,
{
    assert(v / 100 <= 2 && (v / 10) % 10 <= 9 && v % 10 <= 9 && 100 * (v / 100) + 10 * ((v / 10)
        % 10) + (v % 10) == v) by (bit_vector);
}

/// A CALL that found room on the stack, followed immediately by a
/// RETURN, restores the program counter to its post-fetch value and the
/// stack to the frames it held before the call.
pub proof fn lemma_call_return_round_trip(
    a: MachineView,
    b: MachineView,
    c: MachineView,
    nnn: u16,
    r1: Result<(), Chip8Error>,
    r2: Result<(), Chip8Error>,
)
    requires
        a.stack.len() < CHIP8_STACK_MEMORY_SIZE,
        call_rel(a, b, nnn, r1),
        ret_rel(b, c, r2),
    ensures
        step_ok(r1),
        step_ok(r2),
        c.pc == a.pc,
        c.stack == a.stack,
{
    assert(b.stack == a.stack.push(a.pc));
    assert(c.stack =~= a.stack);
}

/// The timer value after `n` advance-timer steps.
pub open spec fn timer_after(t: u8, n: nat) -> u8
    decreases n,
{
    if n == 0 {
        t
    } else {
        timer_decremented(timer_after(t, (n - 1) as nat))
    }
}

/// However many times the timers are advanced, the value falls by one
/// per step until it reaches zero and then stays there: it never goes
/// below zero.
pub proof fn lemma_timer_clamped(t: u8, n: nat)
    ensures
        timer_after(t, n) == if n <= t {
            (t - n) as u8
        } else {
            0u8
        },
    decreases n,
{
    if n > 0 {
        lemma_timer_clamped(t, (n - 1) as nat);
    }
}

/// Where sprite pixel (row, col) of a draw at (x0, y0) lands in the
/// framebuffer: both coordinates wrap independently, per pixel.
pub open spec fn sprite_target(x0: int, y0: int, row: int, col: int) -> int {
    pixel_index(x0, (row + y0) % (SCREEN_HEIGHT as int), col)
}

/// Two columns of one sprite row land on two different cells.
proof fn lemma_row_targets_distinct(x0: int, yy: int, c1: int, c2: int)
    requires
        0 <= x0,
        0 <= c1 < 8,
        0 <= c2 < 8,
        c1 != c2,
    ensures
        pixel_index(x0, yy, c1) != pixel_index(x0, yy, c2),
{
    let w = SCREEN_WIDTH as int;
    if (c1 + x0) % w == (c2 + x0) % w {
        lemma_mod_equivalence(c1 + x0, c2 + x0, w);
        if c1 > c2 {
            lemma_small_mod((c1 - c2) as nat, w as nat);
        } else {
            lemma_mod_equivalence(c2 + x0, c1 + x0, w);
            lemma_small_mod((c2 - c1) as nat, w as nat);
        }
    }
}

/// Two rows of one sprite land on two different wrapped screen rows.
proof fn lemma_sprite_rows_distinct(y0: int, r1: int, r2: int)
    requires
        0 <= y0,
        0 <= r1 < 16,
        0 <= r2 < 16,
        r1 != r2,
    ensures
        (r1 + y0) % (SCREEN_HEIGHT as int) != (r2 + y0) % (SCREEN_HEIGHT as int),
{
    let h = SCREEN_HEIGHT as int;
    if (r1 + y0) % h == (r2 + y0) % h {
        lemma_mod_equivalence(r1 + y0, r2 + y0, h);
        if r1 > r2 {
            lemma_small_mod((r1 - r2) as nat, h as nat);
        } else {
            lemma_mod_equivalence(r2 + y0, r1 + y0, h);
            lemma_small_mod((r2 - r1) as nat, h as nat);
        }
    }
}

/// A row blit never changes the framebuffer's size.
proof fn lemma_draw_row_len(screen: Seq<bool>, byte: u8, x0: int, yy: int, ncols: int)
    requires
        0 <= x0,
        0 <= ncols <= 8,
        screen.len() == SCREEN_WIDTH * SCREEN_HEIGHT,
        0 <= yy < SCREEN_HEIGHT,
    ensures
        draw_row_pixels(screen, byte, x0, yy, ncols).len() == screen.len(),
    decreases ncols,
{
    if ncols > 0 {
        lemma_draw_row_len(screen, byte, x0, yy, ncols - 1);
    }
}

/// A sprite blit never changes the framebuffer's size.
proof fn lemma_draw_sprite_len(
    screen: Seq<bool>,
    ram: Seq<u8>,
    i: int,
    x0: int,
    y0: int,
    nrows: int,
)
    requires
        0 <= x0,
        0 <= y0,
        0 <= nrows <= 16,
        0 <= i,
        i + nrows <= ram.len(),
        screen.len() == SCREEN_WIDTH * SCREEN_HEIGHT,
    ensures
        draw_sprite_pixels(screen, ram, i, x0, y0, nrows).len() == screen.len(),
    decreases nrows,
{
    if nrows > 0 {
        lemma_draw_sprite_len(screen, ram, i, x0, y0, nrows - 1);
        lemma_mod_bound(nrows - 1 + y0, SCREEN_HEIGHT as int);
        lemma_draw_row_len(
            draw_sprite_pixels(screen, ram, i, x0, y0, nrows - 1),
            ram[i + nrows - 1],
            x0,
            (nrows - 1 + y0) % (SCREEN_HEIGHT as int),
            8,
        );
    }
}

/// Blitting one sprite row leaves every cell it does not target as it
/// was.
proof fn lemma_draw_row_untouched(
    screen: Seq<bool>,
    byte: u8,
    x0: int,
    yy: int,
    ncols: int,
    idx: int,
)
    requires
        0 <= x0,
        0 <= ncols <= 8,
        screen.len() == SCREEN_WIDTH * SCREEN_HEIGHT,
        0 <= yy < SCREEN_HEIGHT,
        0 <= idx < screen.len(),
        forall|col: int| 0 <= col < ncols ==> pixel_index(x0, yy, col) != idx,
    ensures
        draw_row_pixels(screen, byte, x0, yy, ncols).len() == screen.len(),
        draw_row_pixels(screen, byte, x0, yy, ncols)[idx] == screen[idx],
    decreases ncols,
{
    if ncols > 0 {
        lemma_draw_row_untouched(screen, byte, x0, yy, ncols - 1, idx);
    }
}

/// Blitting one sprite row XORs each targeted cell with its sprite bit.
proof fn lemma_draw_row_targeted(
    screen: Seq<bool>,
    byte: u8,
    x0: int,
    yy: int,
    ncols: int,
    col: int,
)
    requires
        0 <= x0,
        0 <= col < ncols <= 8,
        screen.len() == SCREEN_WIDTH * SCREEN_HEIGHT,
        0 <= yy < SCREEN_HEIGHT,
    ensures
        draw_row_pixels(screen, byte, x0, yy, ncols).len() == screen.len(),
        draw_row_pixels(screen, byte, x0, yy, ncols)[pixel_index(x0, yy, col)] == (screen[
            pixel_index(x0, yy, col)
        ] != sprite_row_bit(byte, col)),
    decreases ncols,
{
    let idx = pixel_index(x0, yy, col);
    if col == ncols - 1 {
        assert forall|c: int| 0 <= c < ncols - 1 implies pixel_index(x0, yy, c) != idx by {
            lemma_row_targets_distinct(x0, yy, c, col);
        }
        lemma_draw_row_untouched(screen, byte, x0, yy, ncols - 1, idx);
    } else {
        lemma_draw_row_targeted(screen, byte, x0, yy, ncols - 1, col);
        lemma_row_targets_distinct(x0, yy, ncols - 1, col);
    }
}

/// A row blit reports an erasure exactly when some sprite bit is set on
/// a cell that was already set.
proof fn lemma_draw_row_erases_char(screen: Seq<bool>, byte: u8, x0: int, yy: int, ncols: int)
    requires
        0 <= x0,
        0 <= ncols <= 8,
        screen.len() == SCREEN_WIDTH * SCREEN_HEIGHT,
        0 <= yy < SCREEN_HEIGHT,
    ensures
        draw_row_erases(screen, byte, x0, yy, ncols) == exists|col: int|
            0 <= col < ncols && screen[#[trigger] pixel_index(x0, yy, col)] && sprite_row_bit(
                byte,
                col,
            ),
    decreases ncols,
{
    if ncols > 0 {
        lemma_draw_row_erases_char(screen, byte, x0, yy, ncols - 1);
        let idx = pixel_index(x0, yy, ncols - 1);
        assert forall|c: int| 0 <= c < ncols - 1 implies pixel_index(x0, yy, c) != idx by {
            lemma_row_targets_distinct(x0, yy, c, ncols - 1);
        }
        lemma_draw_row_untouched(screen, byte, x0, yy, ncols - 1, idx);
        if draw_row_erases(screen, byte, x0, yy, ncols) {
            if draw_row_erases(screen, byte, x0, yy, ncols - 1) {
                let c = choose|c: int|
                    0 <= c < ncols - 1 && screen[#[trigger] pixel_index(x0, yy, c)]
                        && sprite_row_bit(byte, c);
                assert(0 <= c < ncols && screen[pixel_index(x0, yy, c)] && sprite_row_bit(
                    byte,
                    c,
                ));
            } else {
                assert(0 <= ncols - 1 < ncols && screen[pixel_index(x0, yy, ncols - 1)]
                    && sprite_row_bit(byte, ncols - 1));
            }
        }
    }
}

/// Drawing a sprite leaves every cell outside its wrapped footprint as
/// it was.
proof fn lemma_draw_sprite_untouched(
    screen: Seq<bool>,
    ram: Seq<u8>,
    i: int,
    x0: int,
    y0: int,
    nrows: int,
    idx: int,
)
    requires
        0 <= x0,
        0 <= y0,
        0 <= nrows <= 16,
        0 <= i,
        i + nrows <= ram.len(),
        screen.len() == SCREEN_WIDTH * SCREEN_HEIGHT,
        0 <= idx < screen.len(),
        forall|row: int, col: int|
            0 <= row < nrows && 0 <= col < 8 ==> sprite_target(x0, y0, row, col) != idx,
    ensures
        draw_sprite_pixels(screen, ram, i, x0, y0, nrows).len() == screen.len(),
        draw_sprite_pixels(screen, ram, i, x0, y0, nrows)[idx] == screen[idx],
    decreases nrows,
{
    if nrows > 0 {
        lemma_draw_sprite_untouched(screen, ram, i, x0, y0, nrows - 1, idx);
        let prev = draw_sprite_pixels(screen, ram, i, x0, y0, nrows - 1);
        let yy = (nrows - 1 + y0) % (SCREEN_HEIGHT as int);
        lemma_mod_bound(nrows - 1 + y0, SCREEN_HEIGHT as int);
        assert forall|col: int| 0 <= col < 8 implies pixel_index(x0, yy, col) != idx by {
            assert(sprite_target(x0, y0, nrows - 1, col) != idx);
        }
        lemma_draw_row_untouched(prev, ram[i + nrows - 1], x0, yy, 8, idx);
    }
}

/// The sprite blit, cell by cell: each of the n-by-8 sprite pixels
/// XORs exactly its own wrapped target cell with its sprite bit.  With
/// the untouched-cell law above, this pins the whole framebuffer.
pub proof fn lemma_draw_sprite_pointwise(
    screen: Seq<bool>,
    ram: Seq<u8>,
    i: int,
    x0: int,
    y0: int,
    nrows: int,
    row: int,
    col: int,
)
    requires
        0 <= x0,
        0 <= y0,
        0 <= row < nrows <= 16,
        0 <= col < 8,
        0 <= i,
        i + nrows <= ram.len(),
        screen.len() == SCREEN_WIDTH * SCREEN_HEIGHT,
    ensures
        draw_sprite_pixels(screen, ram, i, x0, y0, nrows).len() == screen.len(),
        draw_sprite_pixels(screen, ram, i, x0, y0, nrows)[sprite_target(x0, y0, row, col)] == (
        screen[sprite_target(x0, y0, row, col)] != sprite_row_bit(ram[i + row], col)),
    decreases nrows,
{
    let prev = draw_sprite_pixels(screen, ram, i, x0, y0, nrows - 1);
    let yy_last = (nrows - 1 + y0) % (SCREEN_HEIGHT as int);
    let idx = sprite_target(x0, y0, row, col);
    lemma_mod_bound(nrows - 1 + y0, SCREEN_HEIGHT as int);
    lemma_mod_bound(row + y0, SCREEN_HEIGHT as int);
    if row == nrows - 1 {
        assert forall|r: int, c: int|
            0 <= r < nrows - 1 && 0 <= c < 8 implies sprite_target(x0, y0, r, c) != idx by {
            lemma_sprite_rows_distinct(y0, r, row);
        }
        lemma_draw_sprite_untouched(screen, ram, i, x0, y0, nrows - 1, idx);
        lemma_draw_row_targeted(prev, ram[i + nrows - 1], x0, yy_last, 8, col);
    } else {
        lemma_draw_sprite_pointwise(screen, ram, i, x0, y0, nrows - 1, row, col);
        lemma_sprite_rows_distinct(y0, row, nrows - 1);
        assert forall|c: int| 0 <= c < 8 implies pixel_index(x0, yy_last, c) != idx by {
        }
        lemma_draw_row_untouched(prev, ram[i + nrows - 1], x0, yy_last, 8, idx);
    }
}

/// The collision rule, spelled out: a draw reports an erasure exactly
/// when some set sprite bit lands on a cell that was already set; a set
/// bit over an unset cell is mere overlap and does not count.
pub proof fn lemma_draw_sprite_erases_char(
    screen: Seq<bool>,
    ram: Seq<u8>,
    i: int,
    x0: int,
    y0: int,
    nrows: int,
)
    requires
        0 <= x0,
        0 <= y0,
        0 <= nrows <= 16,
        0 <= i,
        i + nrows <= ram.len(),
        screen.len() == SCREEN_WIDTH * SCREEN_HEIGHT,
    ensures
        draw_sprite_erases(screen, ram, i, x0, y0, nrows) == exists|row: int, col: int|
            0 <= row < nrows && 0 <= col < 8 && screen[#[trigger] sprite_target(x0, y0, row, col)]
                && sprite_row_bit(ram[i + row], col),
    decreases nrows,
{
    if nrows > 0 {
        lemma_draw_sprite_erases_char(screen, ram, i, x0, y0, nrows - 1);
        lemma_draw_sprite_len(screen, ram, i, x0, y0, nrows - 1);
        let prev = draw_sprite_pixels(screen, ram, i, x0, y0, nrows - 1);
        let yy = (nrows - 1 + y0) % (SCREEN_HEIGHT as int);
        lemma_mod_bound(nrows - 1 + y0, SCREEN_HEIGHT as int);
        assert forall|c: int| 0 <= c < 8 implies prev[#[trigger] pixel_index(x0, yy, c)]
            == screen[pixel_index(x0, yy, c)] by {
            let idx = pixel_index(x0, yy, c);
            assert forall|r: int, cc: int|
                0 <= r < nrows - 1 && 0 <= cc < 8 implies sprite_target(x0, y0, r, cc) != idx by {
                lemma_sprite_rows_distinct(y0, r, nrows - 1);
            }
            lemma_draw_sprite_untouched(screen, ram, i, x0, y0, nrows - 1, idx);
        }
        lemma_draw_row_erases_char(prev, ram[i + nrows - 1], x0, yy, 8);
        if draw_sprite_erases(screen, ram, i, x0, y0, nrows) {
            if draw_sprite_erases(screen, ram, i, x0, y0, nrows - 1) {
                let (r, c): (int, int) = choose|r: int, c: int|
                    0 <= r < nrows - 1 && 0 <= c < 8 && screen[
                        #[trigger] sprite_target(x0, y0, r, c)
                    ] && sprite_row_bit(ram[i + r], c);
                assert(0 <= r < nrows && 0 <= c < 8 && screen[sprite_target(x0, y0, r, c)]
                    && sprite_row_bit(ram[i + r], c));
            } else {
                let c = choose|c: int|
                    0 <= c < 8 && prev[#[trigger] pixel_index(x0, yy, c)] && sprite_row_bit(
                        ram[i + nrows - 1],
                        c,
                    );
                assert(screen[sprite_target(x0, y0, nrows - 1, c)] && sprite_row_bit(
                    ram[i + nrows - 1],
                    c,
                ));
            }
        } else {
            assert forall|r: int, c: int|
                0 <= r < nrows && 0 <= c < 8 && screen[#[trigger] sprite_target(x0, y0, r, c)]
                    implies !sprite_row_bit(ram[i + r], c) by {
                if r < nrows - 1 {
                } else {
                    assert(prev[pixel_index(x0, yy, c)] == screen[pixel_index(x0, yy, c)]);
                }
            }
        }
    }
}

/// The lowest-numbered pressed key is what a resolved key-wait stores:
/// it is pressed, and no lower-numbered key is.
pub proof fn lemma_first_pressed_char(keys: Seq<bool>, from: int)
    requires
        0 <= from <= 16,
        keys.len() == 16,
    ensures
        match crate::semantics::first_pressed_from(keys, from) {
            Some(k) => from <= k < 16 && keys[k as int] && forall|j: int|
                from <= j < k ==> !keys[j],
            None => forall|j: int| from <= j < 16 ==> !keys[j],
        },
    decreases 16 - from,
{
    if from < 16 && !keys[from] {
        lemma_first_pressed_char(keys, from + 1);
    }
}

/// Every cell of the scaled pixel buffer belongs to exactly one
/// framebuffer pixel: the flat index decomposes into the pixel
/// coordinates and the offset within its block.
pub proof fn lemma_block_index_covers(j: int)
    requires
        0 <= j < SCALED_BUFFER_LEN,
    ensures
        ({
            let row_len = (SCREEN_WIDTH * SCREEN_SCALE_FACTOR) as int;
            let scaled_y = j / row_len;
            let scaled_x = j % row_len;
            let y = scaled_y / SCREEN_SCALE_FACTOR as int;
            let dy = scaled_y % SCREEN_SCALE_FACTOR as int;
            let x = scaled_x / SCREEN_SCALE_FACTOR as int;
            let dx = scaled_x % SCREEN_SCALE_FACTOR as int;
            &&& 0 <= y < SCREEN_HEIGHT
            &&& 0 <= x < SCREEN_WIDTH
            &&& 0 <= dy < SCREEN_SCALE_FACTOR
            &&& 0 <= dx < SCREEN_SCALE_FACTOR
            &&& j == block_index(y, x, dy, dx)
        }),
{
    let row_len = (SCREEN_WIDTH * SCREEN_SCALE_FACTOR) as int;
    let scaled_y = j / row_len;
    let scaled_x = j % row_len;
    lemma_fundamental_div_mod(j, row_len);
    lemma_mod_bound(j, row_len);
    assert(0 <= scaled_y < (SCREEN_HEIGHT * SCREEN_SCALE_FACTOR) as int) by (nonlinear_arith)
        requires
            j == row_len * scaled_y + scaled_x,
            0 <= scaled_x < row_len,
            0 <= j < SCALED_BUFFER_LEN,
            row_len == 640,
            SCALED_BUFFER_LEN == 204800,
    ;
    let y = scaled_y / SCREEN_SCALE_FACTOR as int;
    let dy = scaled_y % SCREEN_SCALE_FACTOR as int;
    let x = scaled_x / SCREEN_SCALE_FACTOR as int;
    let dx = scaled_x % SCREEN_SCALE_FACTOR as int;
    lemma_fundamental_div_mod(scaled_y, SCREEN_SCALE_FACTOR as int);
    lemma_mod_bound(scaled_y, SCREEN_SCALE_FACTOR as int);
    lemma_fundamental_div_mod(scaled_x, SCREEN_SCALE_FACTOR as int);
    lemma_mod_bound(scaled_x, SCREEN_SCALE_FACTOR as int);
    assert(0 <= y < SCREEN_HEIGHT) by (nonlinear_arith)
        requires
            scaled_y == SCREEN_SCALE_FACTOR as int * y + dy,
            0 <= dy < SCREEN_SCALE_FACTOR as int,
            0 <= scaled_y < (SCREEN_HEIGHT * SCREEN_SCALE_FACTOR) as int,
            SCREEN_SCALE_FACTOR == 10,
            SCREEN_HEIGHT == 32,
    ;
    assert(0 <= x < SCREEN_WIDTH) by (nonlinear_arith)
        requires
            scaled_x == SCREEN_SCALE_FACTOR as int * x + dx,
            0 <= dx < SCREEN_SCALE_FACTOR as int,
            0 <= scaled_x < (SCREEN_WIDTH * SCREEN_SCALE_FACTOR) as int,
            SCREEN_SCALE_FACTOR == 10,
            SCREEN_WIDTH == 64,
    ;
}

} // verus!
