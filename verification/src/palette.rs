//! The colours of the series.
//!
//! A series takes its colour from its index alone, so that the same series
//! has the same colour in the plot and in the legend, on every rendering.

use vstd::prelude::*;

verus! {

/// A colour, by its red, green and blue parts.
#[derive(Clone, Copy, Debug, PartialEq, Eq, Structural)]
pub struct Colour {
    pub red: u8,
    pub green: u8,
    pub blue: u8,
}

/// The number of colours that the series take in turn.
pub const PALETTE_SIZE: usize = 8;

/// Colour `k` of the palette.
pub open spec fn palette(k: int) -> Colour {
    if k == 0 {
        Colour { red: 31, green: 119, blue: 180 }
    } else if k == 1 {
        Colour { red: 255, green: 127, blue: 14 }
    } else if k == 2 {
        Colour { red: 44, green: 160, blue: 44 }
    } else if k == 3 {
        Colour { red: 214, green: 39, blue: 40 }
    } else if k == 4 {
        Colour { red: 148, green: 103, blue: 189 }
    } else if k == 5 {
        Colour { red: 140, green: 86, blue: 75 }
    } else if k == 6 {
        Colour { red: 227, green: 119, blue: 194 }
    } else {
        Colour { red: 127, green: 127, blue: 127 }
    }
}

/// The colour of the series with the given index.
pub open spec fn colour_of(index: int) -> Colour {
    palette(index % PALETTE_SIZE as int)
}

/// No two colours of the palette are the same.
pub proof fn lemma_palette_distinct(a: int, b: int)
    requires
        0 <= a < PALETTE_SIZE,
        0 <= b < PALETTE_SIZE,
        a != b,
    ensures
        palette(a) != palette(b),
{
}

/// Series whose indices differ by less than the size of the palette have
/// different colours.
pub proof fn lemma_near_series_differ(a: int, b: int)
    requires
        0 <= a < b < a + PALETTE_SIZE,
    ensures
        colour_of(a) != colour_of(b),
{
    let n = PALETTE_SIZE as int;
    assert(a % n != b % n) by {
        if a % n == b % n {
            vstd::arithmetic::div_mod::lemma_fundamental_div_mod(a, n);
            vstd::arithmetic::div_mod::lemma_fundamental_div_mod(b, n);
            assert(b - a == n * (b / n) - n * (a / n));
            assert(b - a == n * (b / n - a / n)) by (nonlinear_arith)
                requires
                    b - a == n * (b / n) - n * (a / n),
            ;
            assert(false) by (nonlinear_arith)
                requires
                    0 < b - a < n,
                    b - a == n * (b / n - a / n),
            ;
        }
    }
    lemma_palette_distinct(a % n, b % n);
}

/// The colour of the series with the given index.
pub fn color_for_index(index: usize) -> (c: Colour)
    ensures
        c == colour_of(index as int),
{
    let k = index % PALETTE_SIZE;
    if k == 0 {
        Colour { red: 31, green: 119, blue: 180 }
    } else if k == 1 {
        Colour { red: 255, green: 127, blue: 14 }
    } else if k == 2 {
        Colour { red: 44, green: 160, blue: 44 }
    } else if k == 3 {
        Colour { red: 214, green: 39, blue: 40 }
    } else if k == 4 {
        Colour { red: 148, green: 103, blue: 189 }
    } else if k == 5 {
        Colour { red: 140, green: 86, blue: 75 }
    } else if k == 6 {
        Colour { red: 227, green: 119, blue: 194 }
    } else {
        Colour { red: 127, green: 127, blue: 127 }
    }
}

} // verus!
