//! The colours of the series.
//!
//! Colours are points of the HSLuv space, in which equal steps look equally
//! far apart. The palette walks five base hues a sixth of the circle apart,
//! at each of three lightness levels, and does so three times over, each time
//! with the hues turned a little further. After these 45 colours it starts
//! again, so that any number of series can be served.

use vstd::prelude::*;

verus! {

/// A colour in HSLuv coordinates: the hue in degrees, saturation and
/// lightness in percent.
#[derive(Clone, Copy, Debug, PartialEq, Eq, Structural)]
pub struct Hsluv {
    pub hue: u16,
    pub saturation: u8,
    pub lightness: u8,
}

/// Number of base hues in one sweep of the circle.
pub const BASE_HUES: usize = 5;

/// Number of lightness levels.
pub const LIGHTNESS_LEVELS: usize = 3;

/// Number of rounds, each with its own hue offset.
pub const HUE_OFFSETS: usize = 3;

/// Number of colours before the palette repeats.
pub const PALETTE_LEN: usize = 45;

/// Saturation of every colour of the palette.
pub const SATURATION: u8 = 80;

/// Degrees by which the hues of round `round` are turned.
pub open spec fn hue_offset(round: int) -> int {
    20 * round
}

/// Lightness of the level `level`: medium first, then dark, then light.
pub open spec fn lightness_level(level: int) -> int {
    if level == 0 {
        65
    } else if level == 1 {
        50
    } else {
        80
    }
}

/// Degrees of the base hue `step`.
pub open spec fn base_hue(step: int) -> int {
    60 * step
}

/// The colour with index `n`, for any `n` from zero up. The base hue changes
/// fastest, then the lightness, then the round.
pub open spec fn palette_at(n: nat) -> Hsluv {
    let i = (n % 45) as int;
    Hsluv {
        hue: (base_hue(i % 5) + hue_offset(i / 15)) as u16,
        saturation: 80,
        lightness: lightness_level((i / 5) % 3) as u8,
    }
}

/// The colour of the series drawn as number `n`, counting from zero.
pub fn color_at(n: usize) -> (c: Hsluv)
    ensures
        c == palette_at(n as nat),
{
    let i: usize = n % PALETTE_LEN;
    let step: usize = i % BASE_HUES;
    let level: usize = (i / BASE_HUES) % LIGHTNESS_LEVELS;
    let round: usize = i / (BASE_HUES * LIGHTNESS_LEVELS);
    let lightness: u8 = if level == 0 {
        65
    } else if level == 1 {
        50
    } else {
        80
    };
    Hsluv { hue: (60 * step + 20 * round) as u16, saturation: SATURATION, lightness }
}

/// A supply of colours that never runs out: it hands out the palette in
/// order and starts over after the last colour.
pub struct Palette {
    position: usize,
    served: Ghost<nat>,
}

impl Palette {
    #[verifier::type_invariant]
    spec fn in_step(self) -> bool {
        self.position == self.served@ % 45
    }

    /// Number of colours handed out so far.
    pub closed spec fn served(self) -> nat {
        self.served@
    }

    /// The supply at its start.
    pub fn new() -> (p: Palette)
        ensures
            p.served() == 0,
    {
        Palette { position: 0, served: Ghost(0) }
    }

    /// Hands out the next colour: the `n`-th call on a fresh supply, counting
    /// from zero, returns the colour with index `n`.
    pub fn next(&mut self) -> (c: Hsluv)
        ensures
            c == palette_at(old(self).served()),
            final(self).served() == old(self).served() + 1,
    {
        proof {
            use_type_invariant(&*self);
        }
        let c = color_at(self.position);
        let following: usize = if self.position + 1 == PALETTE_LEN {
            0
        } else {
            self.position + 1
        };
        *self = Palette { position: following, served: Ghost((self.served@ + 1) as nat) };
        c
    }
}

/// A fresh supply of colours. Every supply hands out the same colours in the
/// same order.
pub fn colors() -> (p: Palette)
    ensures
        p.served() == 0,
{
    Palette::new()
}

/// The colour is a function of its index alone, and the index wraps around
/// after as many colours as there are choices of round, lightness and base
/// hue: colour `n + 45` is colour `n`.
pub proof fn lemma_palette_repeats(n: nat)
    ensures
        PALETTE_LEN == HUE_OFFSETS * LIGHTNESS_LEVELS * BASE_HUES,
        palette_at(n + PALETTE_LEN as nat) == palette_at(n),
{
    assert((n + 45) % 45 == n % 45) by (nonlinear_arith);
}

/// Any 45 colours in a row are distinct: two indices less than 45 apart have
/// different colours. So the palette has 45 distinct colours, one for each
/// choice of round, lightness and base hue, and the first repeat comes after
/// exactly 45.
pub proof fn lemma_palette_distinct(i: nat, j: nat)
    requires
        i < j < i + 45,
    ensures
        palette_at(i) != palette_at(j),
{
    let a = (i % 45) as int;
    let b = (j % 45) as int;
    assert(a != b) by (nonlinear_arith)
        requires
            i < j < i + 45,
            a == i % 45,
            b == j % 45,
    ;
}

} // verus!
