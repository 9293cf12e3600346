use vstd::prelude::*;

use crate::memory::{Memory, MEMORY_SIZE};
use crate::screen::{blank_grid, Screen, HEIGHT, WIDTH};

verus! {

/// Whether column `col` (0 to 7, most significant bit first) of a sprite row
/// is set.
pub open spec fn sprite_pixel(byte: u8, col: int) -> bool {
    byte & (0x80u8 >> (col as u8)) != 0
}

/// Whether the sprite of `rows` rows read from `mem` at `i` and placed with its
/// top left corner at (`x0`, `y0`) has a set pixel at (`x`, `y`). Columns and
/// rows past the edge of the grid are cut off, never wrapped.
pub open spec fn sprite_covers(
    mem: Seq<u8>,
    i: int,
    x0: int,
    y0: int,
    rows: int,
    x: int,
    y: int,
) -> bool {
    &&& x0 <= x < x0 + 8
    &&& x < WIDTH
    &&& y0 <= y < y0 + rows
    &&& y < HEIGHT
    &&& sprite_pixel(mem[i + (y - y0)], x - x0)
}

/// The number of sprite rows that fall on the grid.
pub open spec fn rows_on_grid(y0: int, rows: int) -> int {
    if rows < HEIGHT - y0 {
        rows
    } else {
        HEIGHT - y0
    }
}

/// The grid after the sprite has been drawn onto `g`: each covered pixel is
/// flipped, every other pixel is kept.
pub open spec fn drawn_grid(
    g: Seq<Seq<bool>>,
    mem: Seq<u8>,
    i: int,
    x0: int,
    y0: int,
    rows: int,
) -> Seq<Seq<bool>> {
    Seq::new(
        HEIGHT as nat,
        |y: int| Seq::new(WIDTH as nat, |x: int| g[y][x] != sprite_covers(mem, i, x0, y0, rows, x, y)),
    )
}

/// Whether the sprite covers a pixel that is lit in `g`: drawing it then
/// turns that pixel off.
pub open spec fn collides(g: Seq<Seq<bool>>, mem: Seq<u8>, i: int, x0: int, y0: int, rows: int) -> bool {
    exists|x: int, y: int|
        0 <= x < WIDTH && 0 <= y < HEIGHT && #[trigger] sprite_covers(mem, i, x0, y0, rows, x, y)
            && g[y][x]
}

/// A sprite pixel counted among the first `limit` visited, row by row.
spec fn covered_before(
    mem: Seq<u8>,
    i: int,
    x0: int,
    y0: int,
    rows: int,
    limit: int,
    x: int,
    y: int,
) -> bool {
    sprite_covers(mem, i, x0, y0, rows, x, y) && (y - y0) * 8 + (x - x0) < limit
}

spec fn partial_grid(
    g: Seq<Seq<bool>>,
    mem: Seq<u8>,
    i: int,
    x0: int,
    y0: int,
    rows: int,
    limit: int,
) -> Seq<Seq<bool>> {
    Seq::new(
        HEIGHT as nat,
        |y: int|
            Seq::new(
                WIDTH as nat,
                |x: int| g[y][x] != covered_before(mem, i, x0, y0, rows, limit, x, y),
            ),
    )
}

spec fn partial_collides(
    g: Seq<Seq<bool>>,
    mem: Seq<u8>,
    i: int,
    x0: int,
    y0: int,
    rows: int,
    limit: int,
) -> bool {
    exists|x: int, y: int|
        0 <= x < WIDTH && 0 <= y < HEIGHT && #[trigger] covered_before(
            mem,
            i,
            x0,
            y0,
            rows,
            limit,
            x,
            y,
        ) && g[y][x]
}

/// Whether `g` has the shape of the pixel grid.
pub open spec fn is_grid(g: Seq<Seq<bool>>) -> bool {
    g.len() == HEIGHT && forall|y: int| 0 <= y < HEIGHT ==> (#[trigger] g[y]).len() == WIDTH
}

/// Drawing clips at the edge of the grid and never wraps: the grid keeps its
/// shape, and every pixel left of the sprite's first column or above its first
/// row, where a wrapped column or row would land, is left as it was.
pub proof fn lemma_draw_clips(g: Seq<Seq<bool>>, mem: Seq<u8>, i: int, x0: int, y0: int, rows: int)
    requires
        is_grid(g),
        0 <= x0 < WIDTH,
        0 <= y0 < HEIGHT,
    ensures
        is_grid(drawn_grid(g, mem, i, x0, y0, rows)),
        forall|x: int, y: int|
            0 <= x < WIDTH && 0 <= y < HEIGHT && (x < x0 || y < y0) ==> #[trigger] drawn_grid(
                g,
                mem,
                i,
                x0,
                y0,
                rows,
            )[y][x] == g[y][x],
{
}

/// Drawing is its own inverse: drawing the same sprite twice at the same place
/// restores the grid. On a blank grid the first drawing reports no collision.
pub proof fn lemma_draw_twice_restores(
    g: Seq<Seq<bool>>,
    mem: Seq<u8>,
    i: int,
    x0: int,
    y0: int,
    rows: int,
)
    requires
        is_grid(g),
    ensures
        drawn_grid(drawn_grid(g, mem, i, x0, y0, rows), mem, i, x0, y0, rows) == g,
        g == blank_grid() ==> !collides(g, mem, i, x0, y0, rows),
{
    assert(drawn_grid(drawn_grid(g, mem, i, x0, y0, rows), mem, i, x0, y0, rows) =~~= g);
}

/// Draws the sprite of `rows` rows stored at `i` with its top left corner at
/// (`x0`, `y0`), flipping each covered pixel, and reports whether a lit pixel
/// was turned off.
pub fn draw_sprite(screen: &mut Screen, memory: &Memory, i: usize, x0: u8, y0: u8, rows: u8) -> (hit: bool)
    requires
        x0 < WIDTH,
        y0 < HEIGHT,
        memory@.len() == MEMORY_SIZE,
        i + rows_on_grid(y0 as int, rows as int) <= MEMORY_SIZE,
    ensures
        final(screen)@ == drawn_grid(old(screen)@, memory@, i as int, x0 as int, y0 as int, rows as int),
        hit == collides(old(screen)@, memory@, i as int, x0 as int, y0 as int, rows as int),
{
    let ghost g0 = screen@;
    let ghost mem = memory@;
    let ghost (ii, xx, yy, nn) = (i as int, x0 as int, y0 as int, rows as int);
    let drawn: u8 = if rows < 32 - y0 {
        rows
    } else {
        32 - y0
    };
    let mut hit = false;
    let mut row: u8 = 0;
    assert(screen@ =~~= partial_grid(g0, mem, ii, xx, yy, nn, 0));
    while row < drawn
        invariant
            x0 < WIDTH,
            y0 < HEIGHT,
            mem == memory@,
            mem.len() == MEMORY_SIZE,
            g0.len() == HEIGHT,
            forall|y: int| 0 <= y < HEIGHT ==> (#[trigger] g0[y]).len() == WIDTH,
            drawn == rows_on_grid(yy, nn),
            i + drawn <= MEMORY_SIZE,
            row <= drawn,
            (ii, xx, yy, nn) == (i as int, x0 as int, y0 as int, rows as int),
            screen@ == partial_grid(g0, mem, ii, xx, yy, nn, row * 8),
            hit == partial_collides(g0, mem, ii, xx, yy, nn, row * 8),
        decreases drawn - row,
    {
        let sprite = memory.get(i + row as usize);
        let mut col: u8 = 0;
        while col < 8 && x0 + col < 64
            invariant
                x0 < WIDTH,
                y0 < HEIGHT,
                mem == memory@,
                mem.len() == MEMORY_SIZE,
                g0.len() == HEIGHT,
                forall|y: int| 0 <= y < HEIGHT ==> (#[trigger] g0[y]).len() == WIDTH,
                drawn == rows_on_grid(yy, nn),
                i + drawn <= MEMORY_SIZE,
                row < drawn,
                col <= 8,
                sprite == mem[i + row],
                (ii, xx, yy, nn) == (i as int, x0 as int, y0 as int, rows as int),
                screen@ == partial_grid(g0, mem, ii, xx, yy, nn, row * 8 + col),
                hit == partial_collides(g0, mem, ii, xx, yy, nn, row * 8 + col),
            decreases 8 - col,
        {
            let ghost limit = row * 8 + col;
            let ghost (px, py) = ((x0 + col) as int, (y0 + row) as int);
            assert(sprite_pixel(sprite, col as int) == (sprite & (0x80u8 >> col) != 0));
            if sprite & (0x80u8 >> col) != 0 {
                let before = screen.toggle(x0 + col, y0 + row);
                if !before {
                    hit = true;
                }
                proof {
                    assert(covered_before(mem, ii, xx, yy, nn, limit + 1, px, py));
                    assert forall|x: int, y: int|
                        0 <= x < WIDTH && 0 <= y < HEIGHT implies #[trigger] covered_before(
                        mem,
                        ii,
                        xx,
                        yy,
                        nn,
                        limit + 1,
                        x,
                        y,
                    ) == (covered_before(mem, ii, xx, yy, nn, limit, x, y) || (x == px && y
                        == py)) by {}
                    assert(!covered_before(mem, ii, xx, yy, nn, limit, px, py));
                    assert(screen@ =~~= partial_grid(g0, mem, ii, xx, yy, nn, limit + 1));
                    if partial_collides(g0, mem, ii, xx, yy, nn, limit + 1) {
                        let (wx, wy) = choose|x: int, y: int|
                            0 <= x < WIDTH && 0 <= y < HEIGHT && #[trigger] covered_before(
                                mem,
                                ii,
                                xx,
                                yy,
                                nn,
                                limit + 1,
                                x,
                                y,
                            ) && g0[y][x];
                        if !(wx == px && wy == py) {
                            assert(covered_before(mem, ii, xx, yy, nn, limit, wx, wy));
                        }
                    }
                    if partial_collides(g0, mem, ii, xx, yy, nn, limit) {
                        let (wx, wy) = choose|x: int, y: int|
                            0 <= x < WIDTH && 0 <= y < HEIGHT && #[trigger] covered_before(
                                mem,
                                ii,
                                xx,
                                yy,
                                nn,
                                limit,
                                x,
                                y,
                            ) && g0[y][x];
                        assert(covered_before(mem, ii, xx, yy, nn, limit + 1, wx, wy));
                    }
                }
            } else {
                proof {
                    assert forall|x: int, y: int|
                        0 <= x < WIDTH && 0 <= y < HEIGHT implies #[trigger] covered_before(
                        mem,
                        ii,
                        xx,
                        yy,
                        nn,
                        limit + 1,
                        x,
                        y,
                    ) == covered_before(mem, ii, xx, yy, nn, limit, x, y) by {}
                    assert(screen@ =~~= partial_grid(g0, mem, ii, xx, yy, nn, limit + 1));
                    if partial_collides(g0, mem, ii, xx, yy, nn, limit + 1) {
                        let (wx, wy) = choose|x: int, y: int|
                            0 <= x < WIDTH && 0 <= y < HEIGHT && #[trigger] covered_before(
                                mem,
                                ii,
                                xx,
                                yy,
                                nn,
                                limit + 1,
                                x,
                                y,
                            ) && g0[y][x];
                        assert(covered_before(mem, ii, xx, yy, nn, limit, wx, wy));
                    }
                    if partial_collides(g0, mem, ii, xx, yy, nn, limit) {
                        let (wx, wy) = choose|x: int, y: int|
                            0 <= x < WIDTH && 0 <= y < HEIGHT && #[trigger] covered_before(
                                mem,
                                ii,
                                xx,
                                yy,
                                nn,
                                limit,
                                x,
                                y,
                            ) && g0[y][x];
                        assert(covered_before(mem, ii, xx, yy, nn, limit + 1, wx, wy));
                    }
                }
            }
            col += 1;
        }
        proof {
            let limit = row * 8 + col;
            assert forall|x: int, y: int| 0 <= x < WIDTH && 0 <= y < HEIGHT implies #[trigger] covered_before(
                mem,
                ii,
                xx,
                yy,
                nn,
                (row + 1) * 8,
                x,
                y,
            ) == covered_before(mem, ii, xx, yy, nn, limit, x, y) by {}
            assert(screen@ =~~= partial_grid(g0, mem, ii, xx, yy, nn, (row + 1) * 8));
            if partial_collides(g0, mem, ii, xx, yy, nn, (row + 1) * 8) {
                let (wx, wy) = choose|x: int, y: int|
                    0 <= x < WIDTH && 0 <= y < HEIGHT && #[trigger] covered_before(
                        mem,
                        ii,
                        xx,
                        yy,
                        nn,
                        (row + 1) * 8,
                        x,
                        y,
                    ) && g0[y][x];
                assert(covered_before(mem, ii, xx, yy, nn, limit, wx, wy));
            }
            if partial_collides(g0, mem, ii, xx, yy, nn, limit) {
                let (wx, wy) = choose|x: int, y: int|
                    0 <= x < WIDTH && 0 <= y < HEIGHT && #[trigger] covered_before(
                        mem,
                        ii,
                        xx,
                        yy,
                        nn,
                        limit,
                        x,
                        y,
                    ) && g0[y][x];
                assert(covered_before(mem, ii, xx, yy, nn, (row + 1) * 8, wx, wy));
            }
        }
        row += 1;
    }
    proof {
        let limit = drawn * 8;
        assert forall|x: int, y: int| 0 <= x < WIDTH && 0 <= y < HEIGHT implies #[trigger] sprite_covers(
            mem,
            ii,
            xx,
            yy,
            nn,
            x,
            y,
        ) == covered_before(mem, ii, xx, yy, nn, limit, x, y) by {}
        assert(screen@ =~~= drawn_grid(g0, mem, ii, xx, yy, nn));
        if collides(g0, mem, ii, xx, yy, nn) {
            let (wx, wy) = choose|x: int, y: int|
                0 <= x < WIDTH && 0 <= y < HEIGHT && #[trigger] sprite_covers(mem, ii, xx, yy, nn, x, y)
                    && g0[y][x];
            assert(covered_before(mem, ii, xx, yy, nn, limit, wx, wy));
        }
        if partial_collides(g0, mem, ii, xx, yy, nn, limit) {
            let (wx, wy) = choose|x: int, y: int|
                0 <= x < WIDTH && 0 <= y < HEIGHT && #[trigger] covered_before(
                    mem,
                    ii,
                    xx,
                    yy,
                    nn,
                    limit,
                    x,
                    y,
                ) && g0[y][x];
            assert(sprite_covers(mem, ii, xx, yy, nn, wx, wy));
        }
    }
    hit
}

} // verus!
