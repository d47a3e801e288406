use vstd::prelude::*;
use crate::terrain::Surface;

verus! {

/// Number of clubs in the bag.
pub const CLUB_COUNT: usize = 16;

/// Index of the putter, the last and shortest club.
pub const PUTTER_IDX: usize = 15;

/// Number of shot shapes.
pub const SHOT_COUNT: usize = 5;

/// The shape of a swing; each scales a club's carry, roll and arc.
#[derive(Clone, Copy, Debug, PartialEq, Eq, Structural)]
pub enum ShotType {
    Full,
    ThreeQuarter,
    Half,
    Pitch,
    Chip,
}

/// The shot shapes in cycling order.
pub open spec fn shot_at(j: int) -> ShotType {
    if j == 0 {
        ShotType::Full
    } else if j == 1 {
        ShotType::ThreeQuarter
    } else if j == 2 {
        ShotType::Half
    } else if j == 3 {
        ShotType::Pitch
    } else {
        ShotType::Chip
    }
}

impl ShotType {
    /// Position of the shape in cycling order.
    pub open spec fn index_of(self) -> int {
        match self {
            ShotType::Full => 0,
            ShotType::ThreeQuarter => 1,
            ShotType::Half => 2,
            ShotType::Pitch => 3,
            ShotType::Chip => 4,
        }
    }

    /// Carry multiplier, in percent.
    pub open spec fn carry_pct_of(self) -> int {
        match self {
            ShotType::Full => 100,
            ShotType::ThreeQuarter => 75,
            ShotType::Half => 50,
            ShotType::Pitch => 35,
            ShotType::Chip => 20,
        }
    }

    /// Roll multiplier, in percent.
    pub open spec fn roll_pct_of(self) -> int {
        match self {
            ShotType::Full => 100,
            ShotType::ThreeQuarter => 85,
            ShotType::Half => 70,
            ShotType::Pitch => 32,
            ShotType::Chip => 18,
        }
    }

    /// Arc (apex height and air time) multiplier, in percent.
    pub open spec fn arc_pct_of(self) -> int {
        match self {
            ShotType::Full => 100,
            ShotType::ThreeQuarter => 90,
            ShotType::Half => 75,
            ShotType::Pitch => 62,
            ShotType::Chip => 40,
        }
    }

    /// The shape at position `j` of the cycling order.
    pub fn from_index(j: usize) -> (r: ShotType)
        requires
            j < SHOT_COUNT,
        ensures
            r == shot_at(j as int),
            r.index_of() == j,
    {
        match j {
            0 => ShotType::Full,
            1 => ShotType::ThreeQuarter,
            2 => ShotType::Half,
            3 => ShotType::Pitch,
            _ => ShotType::Chip,
        }
    }

    /// Position of the shape in cycling order.
    pub fn index(self) -> (r: usize)
        ensures
            r as int == self.index_of(),
            r < SHOT_COUNT,
            shot_at(r as int) == self,
    {
        match self {
            ShotType::Full => 0,
            ShotType::ThreeQuarter => 1,
            ShotType::Half => 2,
            ShotType::Pitch => 3,
            ShotType::Chip => 4,
        }
    }

    /// The shape after this one, wrapping from the last back to `Full`.
    pub fn next(self) -> (r: ShotType)
        ensures
            r == shot_at((self.index_of() + 1) % (SHOT_COUNT as int)),
    {
        let i = self.index();
        ShotType::from_index((i + 1) % SHOT_COUNT)
    }

    /// Display name of the shape.
    pub fn name(self) -> (r: &'static str)
        ensures
            self == ShotType::Full ==> r@ == "Full"@,
            self == ShotType::ThreeQuarter ==> r@ == "3/4"@,
            self == ShotType::Half ==> r@ == "Half"@,
            self == ShotType::Pitch ==> r@ == "Pitch"@,
            self == ShotType::Chip ==> r@ == "Chip"@,
    {
        match self {
            ShotType::Full => "Full",
            ShotType::ThreeQuarter => "3/4",
            ShotType::Half => "Half",
            ShotType::Pitch => "Pitch",
            ShotType::Chip => "Chip",
        }
    }

    /// Carry multiplier, in percent.
    pub fn carry_mult(self) -> (r: u64)
        ensures
            r as int == self.carry_pct_of(),
    {
        match self {
            ShotType::Full => 100,
            ShotType::ThreeQuarter => 75,
            ShotType::Half => 50,
            ShotType::Pitch => 35,
            ShotType::Chip => 20,
        }
    }

    /// Roll multiplier, in percent.
    pub fn roll_mult(self) -> (r: u64)
        ensures
            r as int == self.roll_pct_of(),
    {
        match self {
            ShotType::Full => 100,
            ShotType::ThreeQuarter => 85,
            ShotType::Half => 70,
            ShotType::Pitch => 32,
            ShotType::Chip => 18,
        }
    }

    /// Arc multiplier, in percent.
    pub fn arc_mult(self) -> (r: u64)
        ensures
            r as int == self.arc_pct_of(),
    {
        match self {
            ShotType::Full => 100,
            ShotType::ThreeQuarter => 90,
            ShotType::Half => 75,
            ShotType::Pitch => 62,
            ShotType::Chip => 40,
        }
    }
}

/// One club's base profile.
#[derive(Clone, Copy, Debug, PartialEq, Eq)]
pub struct ClubSpec {
    pub name: &'static str,
    /// Carry distance, in yards.
    pub carry_yd: u64,
    /// Rollout distance, in yards.
    pub rollout_yd: u64,
    /// Time in the air, in milliseconds.
    pub air_time_ms: u64,
    /// Apex height, in hundredths of a tile.
    pub apex_centi: u64,
    /// Angular spread of a strike, in micro-radians.
    pub dispersion_urad: u64,
    /// The putter never leaves the ground.
    pub putter: bool,
}

/// The bag, longest club first.
pub open spec fn club_table(i: int) -> ClubSpec {
        if i == 0 {
            ClubSpec { name: "Driver", carry_yd: 255, rollout_yd: 14, air_time_ms: 1000, apex_centi: 410, dispersion_urad: 35000, putter: false }
        } else if i == 1 {
            ClubSpec { name: "3 Wood", carry_yd: 235, rollout_yd: 20, air_time_ms: 950, apex_centi: 380, dispersion_urad: 32000, putter: false }
        } else if i == 2 {
            ClubSpec { name: "5 Wood", carry_yd: 215, rollout_yd: 16, air_time_ms: 900, apex_centi: 370, dispersion_urad: 30000, putter: false }
        } else if i == 3 {
            ClubSpec { name: "3 Hybrid", carry_yd: 205, rollout_yd: 12, air_time_ms: 850, apex_centi: 350, dispersion_urad: 28000, putter: false }
        } else if i == 4 {
            ClubSpec { name: "4 Hybrid", carry_yd: 195, rollout_yd: 10, air_time_ms: 820, apex_centi: 330, dispersion_urad: 27000, putter: false }
        } else if i == 5 {
            ClubSpec { name: "4 Iron", carry_yd: 185, rollout_yd: 10, air_time_ms: 800, apex_centi: 320, dispersion_urad: 26000, putter: false }
        } else if i == 6 {
            ClubSpec { name: "5 Iron", carry_yd: 175, rollout_yd: 8, air_time_ms: 780, apex_centi: 300, dispersion_urad: 24000, putter: false }
        } else if i == 7 {
            ClubSpec { name: "6 Iron", carry_yd: 165, rollout_yd: 7, air_time_ms: 740, apex_centi: 280, dispersion_urad: 22000, putter: false }
        } else if i == 8 {
            ClubSpec { name: "7 Iron", carry_yd: 155, rollout_yd: 6, air_time_ms: 700, apex_centi: 260, dispersion_urad: 21000, putter: false }
        } else if i == 9 {
            ClubSpec { name: "8 Iron", carry_yd: 145, rollout_yd: 5, air_time_ms: 670, apex_centi: 240, dispersion_urad: 19000, putter: false }
        } else if i == 10 {
            ClubSpec { name: "9 Iron", carry_yd: 135, rollout_yd: 4, air_time_ms: 640, apex_centi: 220, dispersion_urad: 18000, putter: false }
        } else if i == 11 {
            ClubSpec { name: "Pitching Wedge", carry_yd: 120, rollout_yd: 3, air_time_ms: 600, apex_centi: 200, dispersion_urad: 16000, putter: false }
        } else if i == 12 {
            ClubSpec { name: "Gap Wedge", carry_yd: 105, rollout_yd: 2, air_time_ms: 550, apex_centi: 180, dispersion_urad: 15000, putter: false }
        } else if i == 13 {
            ClubSpec { name: "Sand Wedge", carry_yd: 90, rollout_yd: 1, air_time_ms: 500, apex_centi: 170, dispersion_urad: 14000, putter: false }
        } else if i == 14 {
            ClubSpec { name: "Lob Wedge", carry_yd: 75, rollout_yd: 1, air_time_ms: 450, apex_centi: 160, dispersion_urad: 13000, putter: false }
        } else {
            ClubSpec { name: "Putter", carry_yd: 0, rollout_yd: 32, air_time_ms: 0, apex_centi: 0, dispersion_urad: 3500, putter: true }
        }
}

/// The club at index `i` of the bag.
pub fn club(i: usize) -> (r: ClubSpec)
    requires
        i < CLUB_COUNT,
    ensures
        r == club_table(i as int),
{
    match i {
        0 => ClubSpec { name: "Driver", carry_yd: 255, rollout_yd: 14, air_time_ms: 1000, apex_centi: 410, dispersion_urad: 35000, putter: false },
        1 => ClubSpec { name: "3 Wood", carry_yd: 235, rollout_yd: 20, air_time_ms: 950, apex_centi: 380, dispersion_urad: 32000, putter: false },
        2 => ClubSpec { name: "5 Wood", carry_yd: 215, rollout_yd: 16, air_time_ms: 900, apex_centi: 370, dispersion_urad: 30000, putter: false },
        3 => ClubSpec { name: "3 Hybrid", carry_yd: 205, rollout_yd: 12, air_time_ms: 850, apex_centi: 350, dispersion_urad: 28000, putter: false },
        4 => ClubSpec { name: "4 Hybrid", carry_yd: 195, rollout_yd: 10, air_time_ms: 820, apex_centi: 330, dispersion_urad: 27000, putter: false },
        5 => ClubSpec { name: "4 Iron", carry_yd: 185, rollout_yd: 10, air_time_ms: 800, apex_centi: 320, dispersion_urad: 26000, putter: false },
        6 => ClubSpec { name: "5 Iron", carry_yd: 175, rollout_yd: 8, air_time_ms: 780, apex_centi: 300, dispersion_urad: 24000, putter: false },
        7 => ClubSpec { name: "6 Iron", carry_yd: 165, rollout_yd: 7, air_time_ms: 740, apex_centi: 280, dispersion_urad: 22000, putter: false },
        8 => ClubSpec { name: "7 Iron", carry_yd: 155, rollout_yd: 6, air_time_ms: 700, apex_centi: 260, dispersion_urad: 21000, putter: false },
        9 => ClubSpec { name: "8 Iron", carry_yd: 145, rollout_yd: 5, air_time_ms: 670, apex_centi: 240, dispersion_urad: 19000, putter: false },
        10 => ClubSpec { name: "9 Iron", carry_yd: 135, rollout_yd: 4, air_time_ms: 640, apex_centi: 220, dispersion_urad: 18000, putter: false },
        11 => ClubSpec { name: "Pitching Wedge", carry_yd: 120, rollout_yd: 3, air_time_ms: 600, apex_centi: 200, dispersion_urad: 16000, putter: false },
        12 => ClubSpec { name: "Gap Wedge", carry_yd: 105, rollout_yd: 2, air_time_ms: 550, apex_centi: 180, dispersion_urad: 15000, putter: false },
        13 => ClubSpec { name: "Sand Wedge", carry_yd: 90, rollout_yd: 1, air_time_ms: 500, apex_centi: 170, dispersion_urad: 14000, putter: false },
        14 => ClubSpec { name: "Lob Wedge", carry_yd: 75, rollout_yd: 1, air_time_ms: 450, apex_centi: 160, dispersion_urad: 13000, putter: false },
        _ => ClubSpec { name: "Putter", carry_yd: 0, rollout_yd: 32, air_time_ms: 0, apex_centi: 0, dispersion_urad: 3500, putter: true },
    }
}

/// How a lie scales a shot: carry and roll in percent, and extra
/// dispersion in micro-radians.
pub open spec fn lie_of(s: Surface) -> (int, int, int) {
    match s {
        Surface::Green => (100, 100, 2000),
        Surface::Fairway => (100, 100, 4000),
        Surface::Rough => (82, 72, 28000),
        Surface::Bunker => (65, 46, 45000),
    }
}

/// How a lie scales a shot: `(carry percent, roll percent, extra dispersion
/// in micro-radians)`.
pub fn lie_modifiers(s: Surface) -> (r: (u64, u64, u64))
    ensures
        (r.0 as int, r.1 as int, r.2 as int) == lie_of(s),
{
    match s {
        Surface::Green => (100, 100, 2000),
        Surface::Fairway => (100, 100, 4000),
        Surface::Rough => (82, 72, 28000),
        Surface::Bunker => (65, 46, 45000),
    }
}

} // verus!
