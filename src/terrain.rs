use vstd::prelude::*;

verus! {

/// Width of the field, in tiles.
pub const WIDTH: i32 = 72;

/// Height of the field, in tiles.
pub const HEIGHT: i32 = 24;

/// The four kinds of ground a ball can lie on.
#[derive(Clone, Copy, Debug, PartialEq, Eq, Structural)]
pub enum Surface {
    Green,
    Fairway,
    Rough,
    Bunker,
}

impl Surface {
    /// Drag coefficient in hundredths per second (higher means more friction).
    pub open spec fn drag_of(self) -> int {
        match self {
            Surface::Green => 235,
            Surface::Fairway => 200,
            Surface::Rough => 420,
            Surface::Bunker => 900,
        }
    }

    /// Drag coefficient in hundredths per second.
    pub fn drag_strength(self) -> (r: u32)
        ensures
            r as int == self.drag_of(),
    {
        match self {
            Surface::Green => 235,
            Surface::Fairway => 200,
            Surface::Rough => 420,
            Surface::Bunker => 900,
        }
    }

    /// Display name of the surface.
    pub fn name(self) -> (r: &'static str)
        ensures
            self == Surface::Green ==> r@ == "Green"@,
            self == Surface::Fairway ==> r@ == "Fairway"@,
            self == Surface::Rough ==> r@ == "Rough"@,
            self == Surface::Bunker ==> r@ == "Bunker"@,
    {
        match self {
            Surface::Green => "Green",
            Surface::Fairway => "Fairway",
            Surface::Rough => "Rough",
            Surface::Bunker => "Bunker",
        }
    }
}

/// True when tile `(x, y)` lies strictly inside the disc centred at
/// `(cx / 100, cy / 100)` whose squared radius is `r2 / 10000`.
pub open spec fn in_disc(x: int, y: int, cx: int, cy: int, r2: int) -> bool {
    (100 * x - cx) * (100 * x - cx) + (100 * y - cy) * (100 * y - cy) < r2
}

/// The green: radius 2.6 around the hole at (64, 7).
pub open spec fn on_green_disc(x: int, y: int) -> bool {
    in_disc(x, y, 6400, 700, 67600)
}

/// The two bunkers: radius 2.8 around (27.36, 7.68) and (47.52, 17.52).
pub open spec fn in_bunker(x: int, y: int) -> bool {
    in_disc(x, y, 2736, 768, 78400) || in_disc(x, y, 4752, 1752, 78400)
}

/// The fairway: within `2.8 + 0.04 x` tiles of a centre line that runs at
/// half height displaced by `sway` milli-tiles.
pub open spec fn in_fairway(x: int, y: int, sway: int) -> bool {
    let d = 1000 * y - (500 * HEIGHT + sway);
    let half_width = 2800 + 40 * x;
    -half_width < d && d < half_width
}

/// The surface at tile `(x, y)`, where `sway` is the fairway centre line's
/// displacement at column `x`, in milli-tiles. The green wins over the
/// bunkers, the bunkers over the fairway, and everything else is rough.
pub open spec fn surface_at(x: int, y: int, sway: int) -> Surface {
    if on_green_disc(x, y) {
        Surface::Green
    } else if in_bunker(x, y) {
        Surface::Bunker
    } else if in_fairway(x, y, sway) {
        Surface::Fairway
    } else {
        Surface::Rough
    }
}

fn disc_test(x: i32, y: i32, cx: i128, cy: i128, r2: i128) -> (r: bool)
    requires
        -1_000_000 <= cx <= 1_000_000,
        -1_000_000 <= cy <= 1_000_000,
    ensures
        r == in_disc(x as int, y as int, cx as int, cy as int, r2 as int),
{
    let dx: i128 = 100 * (x as i128) - cx;
    let dy: i128 = 100 * (y as i128) - cy;
    proof {
        let bound: int = 0x1_0000_0000_0000;
        assert(0 <= dx * dx <= bound * bound) by (nonlinear_arith)
            requires -bound <= dx <= bound;
        assert(0 <= dy * dy <= bound * bound) by (nonlinear_arith)
            requires -bound <= dy <= bound;
    }
    dx * dx + dy * dy < r2
}

/// Classifies tile `(x, y)`. `sway` is the fairway centre line's displacement
/// from half height at column `x`, in milli-tiles.
pub fn terrain_surface(x: i32, y: i32, sway: i32) -> (r: Surface)
    ensures
        r == surface_at(x as int, y as int, sway as int),
{
    if disc_test(x, y, 6400, 700, 67600) {
        Surface::Green
    } else if disc_test(x, y, 2736, 768, 78400) || disc_test(x, y, 4752, 1752, 78400) {
        Surface::Bunker
    } else {
        let d: i64 = 1000 * (y as i64) - (500 * (HEIGHT as i64) + sway as i64);
        let half_width: i64 = 2800 + 40 * (x as i64);
        if -half_width < d && d < half_width {
            Surface::Fairway
        } else {
            Surface::Rough
        }
    }
}

/// The glyph drawn for a tile: two alternating glyphs per surface, chosen by
/// the parity (or residue) of `x + y`.
pub open spec fn glyph_of(s: Surface, x: int, y: int) -> char {
    match s {
        Surface::Green | Surface::Fairway => if (x + y) % 2 == 0 { '■' } else { '▪' },
        Surface::Rough => if (x + y) % 3 == 0 { '▪' } else { '·' },
        Surface::Bunker => if (x + y) % 5 == 0 { '□' } else { '▫' },
    }
}

/// The glyph for tile `(x, y)`; `sway` as in [`terrain_surface`].
pub fn terrain_char(x: i32, y: i32, sway: i32) -> (r: char)
    ensures
        r == glyph_of(surface_at(x as int, y as int, sway as int), x as int, y as int),
{
    let s = terrain_surface(x, y, sway);
    let sum: i64 = x as i64 + y as i64;
    match s {
        Surface::Green | Surface::Fairway => if sum % 2 == 0 { '■' } else { '▪' },
        Surface::Rough => if sum % 3 == 0 { '▪' } else { '·' },
        Surface::Bunker => if sum % 5 == 0 { '□' } else { '▫' },
    }
}

} // verus!
