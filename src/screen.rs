use vstd::prelude::*;

verus! {

/// Width of the pixel grid.
pub const WIDTH: usize = 64;

/// Height of the pixel grid.
pub const HEIGHT: usize = 32;

/// Whether pixel `x` is lit in a row mask: column `x` is bit `x`.
pub open spec fn row_bit(row: u64, x: int) -> bool {
    (row >> (x as u64)) & 1 == 1
}

/// A grid of `HEIGHT` rows of `WIDTH` pixels, in which every pixel is clear.
pub open spec fn blank_grid() -> Seq<Seq<bool>> {
    Seq::new(HEIGHT as nat, |y: int| Seq::new(WIDTH as nat, |x: int| false))
}

/// The monochrome frame buffer: 32 rows of 64 pixels, each row held as a
/// 64-bit mask.
#[derive(Debug, Clone, PartialEq, Eq, Hash)]
pub struct Screen(pub [u64; 32]);

impl View for Screen {
    /// Row by row, pixel by pixel: `view[y][x]` is the pixel in column `x`
    /// of row `y`.
    type V = Seq<Seq<bool>>;

    open spec fn view(&self) -> Seq<Seq<bool>> {
        Seq::new(HEIGHT as nat, |y: int| Seq::new(WIDTH as nat, |x: int| row_bit(self.0@[y], x)))
    }
}

proof fn lemma_zero_row(x: u64)
    requires
        x < 64,
    ensures
        !row_bit(0, x as int),
{
    assert((0u64 >> x) & 1 != 1) by (bit_vector);
}

proof fn lemma_flip_bit(row: u64, x: u64, c: u64)
    requires
        x < 64,
        c < 64,
    ensures
        row_bit(row ^ (1u64 << x), c as int) == if c == x {
            !row_bit(row, c as int)
        } else {
            row_bit(row, c as int)
        },
{
    assert((((row ^ (1u64 << x)) >> c) & 1 == 1) == if c == x {
        !((row >> c) & 1 == 1)
    } else {
        (row >> c) & 1 == 1
    }) by (bit_vector)
        requires
            x < 64,
            c < 64,
    ;
}

impl Screen {
    /// A screen with every pixel clear.
    pub fn new() -> (r: Self)
        ensures
            r@ == blank_grid(),
    {
        let r = Self([0;32]);
        proof {
            assert forall|y: int, x: int| 0 <= y < HEIGHT && 0 <= x < WIDTH implies !row_bit(
                r.0@[y],
                x,
            ) by {
                lemma_zero_row(x as u64);
            }
        }
        assert(r@ =~~= blank_grid());
        r
    }

    /// Flips the pixel at column `x` of row `y` and returns its new state:
    /// `false` means that the pixel was lit before.
    pub fn toggle(&mut self, x: u8, y: u8) -> (r: bool)
        requires
            x < WIDTH,
            y < HEIGHT,
        ensures
            final(self)@ == old(self)@.update(
                y as int,
                old(self)@[y as int].update(x as int, !old(self)@[y as int][x as int]),
            ),
            r == !old(self)@[y as int][x as int],
    {
        let ghost before = self.0@;
        let xs = x as usize;
        let ys = y as usize;
        self.0[ys] ^= 1 << xs;
        proof {
            assert forall|c: int| 0 <= c < WIDTH implies row_bit(self.0@[ys as int], c) == if c
                == x {
                !row_bit(before[ys as int], c)
            } else {
                row_bit(before[ys as int], c)
            } by {
                lemma_flip_bit(before[ys as int], xs as u64, c as u64);
            }
        }
        let r = (self.0[ys] & (1 << xs)) != 0;
        assert(r == row_bit(self.0@[ys as int], x as int)) by {
            let row = self.0@[ys as int];
            let xx = xs as u64;
            assert(((row & (1u64 << xx)) != 0) == ((row >> xx) & 1 == 1)) by (bit_vector)
                requires
                    xx < 64,
            ;
        }
        assert(self@ =~~= old(self)@.update(
            y as int,
            old(self)@[y as int].update(x as int, !old(self)@[y as int][x as int]),
        ));
        r
    }

    /// Whether the pixel at column `x` of row `y` is lit.
    pub fn pixel(&self, x: u8, y: u8) -> (r: bool)
        requires
            x < WIDTH,
            y < HEIGHT,
        ensures
            r == self@[y as int][x as int],
    {
        let row = self.0[y as usize];
        let xx = x as u64;
        let r = (row >> xx) & 1 == 1;
        r
    }

    /// Turns every pixel off.
    pub fn clear(&mut self)
        ensures
            final(self)@ == blank_grid(),
    {
        self.0 = [0;32];
        proof {
            assert forall|y: int, x: int| 0 <= y < HEIGHT && 0 <= x < WIDTH implies !row_bit(
                self.0@[y],
                x,
            ) by {
                lemma_zero_row(x as u64);
            }
        }
        assert(self@ =~~= blank_grid());
    }
}

} // verus!
