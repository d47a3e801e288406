use vstd::prelude::*;

verus! {

/// Fixed-point scale of directions and of fractions: one whole is a million.
pub const UNIT: i64 = 1_000_000;

/// Lowest coordinate a resting or rolling ball can have, in milli-tiles.
pub const FIELD_MIN: i64 = 1000;

/// Highest x coordinate of a ball, in milli-tiles (72 - 2 tiles).
pub const FIELD_MAX_X: i64 = 70000;

/// Highest y coordinate of a ball, in milli-tiles (24 - 2 tiles).
pub const FIELD_MAX_Y: i64 = 22000;

/// Bound on coordinates and velocity components that the simulation keeps.
pub const COORD_BOUND: i64 = 1_000_000_000;

/// Below this speed (0.12 tiles/s, in milli-tiles/s) a roll ends.
pub const STOP_SPEED: i64 = 120;

/// A roll is cut short after this long, in microseconds.
pub const MAX_ROLL_TIME: u64 = 12_000_000;

/// Within this distance of the cup (1.12 tiles) a fast ball lips out.
pub const LIP_RADIUS: i64 = 1120;

/// Speed toward the cup given to a ball that lips out, in milli-tiles/s.
pub const LIP_PULL: i64 = 450;

/// A 2D vector: a position in milli-tiles or a velocity in milli-tiles per second.
#[derive(Clone, Copy, Debug, PartialEq, Eq, Structural)]
pub struct Vec2 {
    pub x: i64,
    pub y: i64,
}

/// Square of the length of `(x, y)`.
pub open spec fn norm_sq(x: int, y: int) -> int {
    x * x + y * y
}

/// Both components of `v` lie within `b` of zero.
pub open spec fn bounded(v: Vec2, b: int) -> bool {
    -b <= v.x <= b && -b <= v.y <= b
}

/// Square of the distance between `a` and `b`.
pub open spec fn dist_sq(a: Vec2, b: Vec2) -> int {
    norm_sq(a.x - b.x, a.y - b.y)
}

/// `r` is the integer square root of `n`: the largest number whose square is at most `n`.
pub open spec fn is_isqrt(r: int, n: int) -> bool {
    0 <= r && r * r <= n < (r + 1) * (r + 1)
}

/// The integer square root of `n`, by binary search.
fn isqrt(n: u64) -> (r: u64)
    ensures
        is_isqrt(r as int, n as int),
{
    let mut lo: u64 = 0;
    let mut hi: u64 = 0x1_0000_0000;
    assert(hi * hi > n) by (nonlinear_arith)
        requires hi == 0x1_0000_0000, n <= 0xffff_ffff_ffff_ffff;
    while hi - lo > 1
        invariant
            lo < hi <= 0x1_0000_0000,
            lo * lo <= n,
            n < hi * hi,
        decreases hi - lo,
    {
        let mid: u64 = lo + (hi - lo) / 2;
        assert(mid * mid <= 0xffff_fffe_0000_0001) by (nonlinear_arith)
            requires mid <= 0xffff_ffff;
        if mid * mid <= n {
            lo = mid;
        } else {
            hi = mid;
        }
    }
    assert(hi == lo + 1);
    lo
}

/// `v * num / den`, rounded toward zero.
pub open spec fn scale_tz(v: int, num: int, den: int) -> int {
    if v >= 0 {
        v * num / den
    } else {
        -((-v) * num / den)
    }
}

proof fn lemma_scale_tz_bound(v: int, num: int, den: int)
    requires
        0 <= num <= den,
        den > 0,
    ensures
        v >= 0 ==> 0 <= scale_tz(v, num, den) <= v,
        v < 0 ==> v <= scale_tz(v, num, den) <= 0,
{
    if v >= 0 {
        assert(v * num <= v * den) by (nonlinear_arith)
            requires v >= 0, num <= den;
        assert(v * num / den <= v * den / den) by (nonlinear_arith)
            requires v * num <= v * den, den > 0;
        assert(v * den / den == v) by (nonlinear_arith)
            requires den > 0;
        assert(0 <= v * num) by (nonlinear_arith)
            requires v >= 0, num >= 0;
    } else {
        let w = -v;
        assert(w * num <= w * den) by (nonlinear_arith)
            requires w >= 0, num <= den;
        assert(w * num / den <= w * den / den) by (nonlinear_arith)
            requires w * num <= w * den, den > 0;
        assert(w * den / den == w) by (nonlinear_arith)
            requires den > 0;
        assert(0 <= w * num) by (nonlinear_arith)
            requires w >= 0, num >= 0;
    }
}

/// A fifth of a bounded velocity component stays well within bounds.
pub proof fn lemma_scale_tz_fifth(v: int)
    requires
        -1_000_000 <= v <= 1_000_000,
    ensures
        -200_000 <= scale_tz(v, 20, 100) <= 200_000,
{
    if v >= 0 {
        assert(v * 20 / 100 <= 200_000) by (nonlinear_arith)
            requires 0 <= v <= 1_000_000;
        assert(v * 20 / 100 >= 0) by (nonlinear_arith)
            requires 0 <= v;
    } else {
        assert((-v) * 20 / 100 <= 200_000) by (nonlinear_arith)
            requires 0 <= -v <= 1_000_000;
        assert((-v) * 20 / 100 >= 0) by (nonlinear_arith)
            requires 0 <= -v;
    }
}

/// `v * num / den` rounded toward zero, for `0 <= num <= den`.
pub fn scale_toward_zero(v: i64, num: i64, den: i64) -> (r: i64)
    requires
        0 <= num <= den <= UNIT,
        0 < den,
        -COORD_BOUND <= v <= COORD_BOUND,
    ensures
        r == scale_tz(v as int, num as int, den as int),
        v >= 0 ==> 0 <= r <= v,
        v < 0 ==> v <= r <= 0,
{
    proof {
        lemma_scale_tz_bound(v as int, num as int, den as int);
    }
    if v >= 0 {
        assert(v * num <= COORD_BOUND * UNIT) by (nonlinear_arith)
            requires 0 <= v <= COORD_BOUND, 0 <= num <= UNIT;
        v * num / den
    } else {
        assert((-v) * num <= COORD_BOUND * UNIT) by (nonlinear_arith)
            requires 0 <= -v <= COORD_BOUND, 0 <= num <= UNIT;
        -((-v) * num / den)
    }
}

impl Vec2 {
    /// The vector `(x, y)`.
    pub fn new(x: i64, y: i64) -> (r: Vec2)
        ensures
            r.x == x && r.y == y,
    {
        Vec2 { x, y }
    }

    /// Square of the length.
    pub fn length_sq(&self) -> (r: u64)
        requires
            bounded(*self, COORD_BOUND as int),
        ensures
            r as int == norm_sq(self.x as int, self.y as int),
    {
        proof {
            lemma_square_bound(self.x as int);
            lemma_square_bound(self.y as int);
        }
        (self.x * self.x + self.y * self.y) as u64
    }

    /// Length, rounded down.
    pub fn length(&self) -> (r: u64)
        requires
            bounded(*self, COORD_BOUND as int),
        ensures
            is_isqrt(r as int, norm_sq(self.x as int, self.y as int)),
    {
        isqrt(self.length_sq())
    }

    /// The direction of `self` scaled to `UNIT`, each component rounded toward
    /// zero; the zero vector for the zero vector.
    pub fn normalized(&self) -> (r: Vec2)
        requires
            bounded(*self, COORD_BOUND as int),
        ensures
            bounded(r, UNIT as int),
            self.x == 0 && self.y == 0 ==> r.x == 0 && r.y == 0,
            exists|len: int|
                is_isqrt(len, norm_sq(self.x as int, self.y as int)) && r == unit_of(*self, len),
    {
        let len = self.length();
        if len == 0 {
            let r = Vec2 { x: 0, y: 0 };
            assert(r == unit_of(*self, len as int));
            r
        } else {
            proof {
                lemma_component_le_root(self.x as int, self.y as int, len as int);
                lemma_component_le_root(self.y as int, self.x as int, len as int);
                lemma_square_bound(self.x as int);
                lemma_square_bound(self.y as int);
                lemma_root_bound(len as int, norm_sq(self.x as int, self.y as int));
            }
            let l = len as i64;
            let r = Vec2 { x: ratio_tz(self.x, UNIT, l), y: ratio_tz(self.y, UNIT, l) };
            assert(r == unit_of(*self, len as int));
            r
        }
    }
}

/// The direction of `v` scaled to `UNIT`, given its length `len`; the zero
/// vector when `len` is zero.
pub open spec fn unit_of(v: Vec2, len: int) -> Vec2 {
    if len == 0 {
        Vec2 { x: 0, y: 0 }
    } else {
        Vec2 { x: scale_tz(v.x as int, UNIT as int, len) as i64, y: scale_tz(v.y as int, UNIT as int, len) as i64 }
    }
}

/// `c * num / den` rounded toward zero, for `|c| <= den`: a magnitude of at
/// most `num` in the direction of `c`.
pub fn ratio_tz(c: i64, num: i64, den: i64) -> (r: i64)
    requires
        -den <= c <= den,
        0 < den <= 2 * COORD_BOUND,
        0 <= num <= UNIT,
    ensures
        r == scale_tz(c as int, num as int, den as int),
        -num <= r <= num,
        c >= 0 ==> r >= 0,
        c <= 0 ==> r <= 0,
{
    if c >= 0 {
        proof {
            lemma_ratio(c as int, num as int, den as int);
        }
        c * num / den
    } else {
        let m: i64 = -c;
        proof {
            lemma_ratio(m as int, num as int, den as int);
        }
        -(m * num / den)
    }
}

proof fn lemma_ratio(c: int, u: int, len: int)
    requires
        0 <= c <= len,
        len > 0,
        0 <= u <= UNIT,
        len <= 2 * COORD_BOUND,
    ensures
        0 <= c * u <= len * u,
        c * u <= 2 * COORD_BOUND * UNIT,
        0 <= (c * u) / len <= u,
{
    assert(0 <= c * u <= len * u) by (nonlinear_arith)
        requires 0 <= c <= len, u >= 0;
    assert(len * u <= 2 * COORD_BOUND * UNIT) by (nonlinear_arith)
        requires 0 < len <= 2 * COORD_BOUND, 0 <= u <= UNIT;
    assert((c * u) / len <= (len * u) / len) by (nonlinear_arith)
        requires c * u <= len * u, len > 0;
    assert((len * u) / len == u) by (nonlinear_arith)
        requires len > 0;
    assert(0 <= (c * u) / len) by (nonlinear_arith)
        requires c * u >= 0, len > 0;
}

proof fn lemma_root_bound(r: int, n: int)
    requires
        is_isqrt(r, n),
        n <= 2 * COORD_BOUND * COORD_BOUND,
    ensures
        r <= 2 * COORD_BOUND,
{
    if r > 2 * COORD_BOUND {
        assert(r * r > 4 * COORD_BOUND * COORD_BOUND) by (nonlinear_arith)
            requires r > 2 * COORD_BOUND;
    }
}

proof fn lemma_square_bound(x: int)
    requires
        -COORD_BOUND <= x <= COORD_BOUND,
    ensures
        0 <= x * x <= COORD_BOUND * COORD_BOUND,
{
    assert(0 <= x * x <= COORD_BOUND * COORD_BOUND) by (nonlinear_arith)
        requires -COORD_BOUND <= x <= COORD_BOUND;
}

/// A component never exceeds the rounded-down length of its vector.
pub proof fn lemma_component_le_root(a: int, b: int, r: int)
    requires
        is_isqrt(r, norm_sq(a, b)),
    ensures
        -r <= a <= r,
{
    if a > r {
        assert(a * a >= (r + 1) * (r + 1)) by (nonlinear_arith)
            requires a >= r + 1, r >= 0;
        assert(b * b >= 0) by (nonlinear_arith);
    }
    if a < -r {
        assert(a * a >= (r + 1) * (r + 1)) by (nonlinear_arith)
            requires -a >= r + 1, r >= 0;
        assert(b * b >= 0) by (nonlinear_arith);
    }
}

/// Cup radii and speed for a surface: `(hard sink radius, soft sink radius,
/// soft sink speed)`, in milli-tiles and milli-tiles per second. The green's
/// cup is more forgiving.
pub open spec fn sink_params(on_green: bool) -> (int, int, int) {
    if on_green {
        (560, 1000, 1450)
    } else {
        (420, 820, 1150)
    }
}

/// The ball drops when it is within the hard sink radius, or within the soft
/// sink radius and slower than the soft sink speed.
pub open spec fn drops(dist_sq: int, speed_sq: int, on_green: bool) -> bool {
    let (hard, soft, soft_speed) = sink_params(on_green);
    dist_sq < hard * hard || (dist_sq < soft * soft && speed_sq < soft_speed * soft_speed)
}

/// A ball that does not drop but passes within the lip radius at or above
/// the soft sink speed is deflected around the cup.
pub open spec fn lips_out(dist_sq: int, speed_sq: int, on_green: bool) -> bool {
    let (_, _, soft_speed) = sink_params(on_green);
    dist_sq < LIP_RADIUS * LIP_RADIUS && speed_sq >= soft_speed * soft_speed
}

/// A roll ends when the ball is slower than the stop speed or has rolled for
/// longer than the time cap.
pub open spec fn roll_ends(speed_sq: int, roll_time: int) -> bool {
    speed_sq < STOP_SPEED * STOP_SPEED || roll_time > MAX_ROLL_TIME
}

/// Inside the hard sink radius a ball drops whatever its speed.
pub proof fn lemma_hard_radius_drops(dist_sq: int, speed_sq: int, on_green: bool)
    requires
        dist_sq < sink_params(on_green).0 * sink_params(on_green).0,
    ensures
        drops(dist_sq, speed_sq, on_green),
{
}

/// Whether a ball `dist_sq` (squared milli-tiles) from the cup, moving with
/// squared speed `speed_sq`, drops into it.
pub fn sink_check(dist_sq: u64, speed_sq: u64, on_green: bool) -> (r: bool)
    ensures
        r == drops(dist_sq as int, speed_sq as int, on_green),
{
    let (hard, soft, soft_speed): (u64, u64, u64) = if on_green {
        (560, 1000, 1450)
    } else {
        (420, 820, 1150)
    };
    dist_sq < hard * hard || (dist_sq < soft * soft && speed_sq < soft_speed * soft_speed)
}

/// Whether a ball that did not drop is deflected around the cup.
pub fn lip_out_check(dist_sq: u64, speed_sq: u64, on_green: bool) -> (r: bool)
    ensures
        r == lips_out(dist_sq as int, speed_sq as int, on_green),
{
    let soft_speed: u64 = if on_green {
        1450
    } else {
        1150
    };
    dist_sq < 1120 * 1120 && speed_sq >= soft_speed * soft_speed
}

/// Whether a roll with squared speed `speed_sq`, having lasted `roll_time`
/// microseconds, ends now.
pub fn roll_end_check(speed_sq: u64, roll_time: u64) -> (r: bool)
    ensures
        r == roll_ends(speed_sq as int, roll_time as int),
{
    speed_sq < 120 * 120 || roll_time > MAX_ROLL_TIME
}

/// The fraction (of `UNIT`) of its speed a ball keeps over a substep of
/// `step` microseconds against drag `drag` (hundredths per second).
pub open spec fn drag_keep(drag: int, step: int) -> int {
    let loss = drag * step / 100;
    if loss >= UNIT {
        0
    } else {
        UNIT - loss
    }
}

/// Fraction of its speed a ball keeps over one substep; see [`drag_keep`].
pub fn drag_factor(drag: u32, step: u64) -> (r: i64)
    requires
        step <= MAX_ROLL_TIME,
    ensures
        r == drag_keep(drag as int, step as int),
        0 <= r <= UNIT,
{
    assert(drag as int * step as int <= 0xffff_ffff * MAX_ROLL_TIME) by (nonlinear_arith)
        requires drag <= 0xffff_ffff, step <= MAX_ROLL_TIME;
    let loss: u64 = (drag as u64) * step / 100;
    if loss >= UNIT as u64 {
        0
    } else {
        UNIT - loss as i64
    }
}

/// A velocity component after `n` substeps that each keep `keep` of it.
pub open spec fn decayed(v: int, keep: int, n: nat) -> int
    decreases n,
{
    if n == 0 {
        v
    } else {
        scale_tz(decayed(v, keep, (n - 1) as nat), keep, UNIT as int)
    }
}

/// Magnitude of `v`.
pub open spec fn abs(v: int) -> int {
    if v < 0 {
        -v
    } else {
        v
    }
}

/// Rolling against a fixed drag that removes some speed each substep, each
/// velocity component shrinks in magnitude at every substep, stays within the
/// geometric bound `|v| * (keep / UNIT)^n`, and reaches zero after at most
/// `|v|` substeps, so the ball's speed falls below the stop speed in finitely
/// many substeps.
pub proof fn lemma_drag_decay(v: int, keep: int, n: nat)
    requires
        0 <= keep < UNIT,
    ensures
        abs(decayed(v, keep, n + 1)) <= abs(decayed(v, keep, n)),
        decayed(v, keep, n) != 0 ==> abs(decayed(v, keep, n + 1)) < abs(decayed(v, keep, n)),
        abs(decayed(v, keep, n)) * vstd::arithmetic::power::pow(UNIT as int, n) <= abs(v)
            * vstd::arithmetic::power::pow(keep, n),
        abs(decayed(v, keep, n)) <= if abs(v) >= n { abs(v) - n } else { 0 },
        n >= abs(v) ==> decayed(v, keep, n) == 0,
    decreases n,
{
    lemma_decay_step(decayed(v, keep, n), keep);
    vstd::arithmetic::power::lemma_pow0(UNIT as int);
    vstd::arithmetic::power::lemma_pow0(keep);
    if n > 0 {
        let m = (n - 1) as nat;
        lemma_drag_decay(v, keep, m);
        let a = abs(decayed(v, keep, m));
        let b = abs(decayed(v, keep, n));
        lemma_decay_step(decayed(v, keep, m), keep);
        vstd::arithmetic::power::lemma_pow_adds(UNIT as int, m, 1);
        vstd::arithmetic::power::lemma_pow_adds(keep, m, 1);
        vstd::arithmetic::power::lemma_pow1(UNIT as int);
        vstd::arithmetic::power::lemma_pow1(keep);
        let pu = vstd::arithmetic::power::pow(UNIT as int, m);
        let pk = vstd::arithmetic::power::pow(keep, m);
        vstd::arithmetic::power::lemma_pow_positive(UNIT as int, m);
        assert(b * UNIT <= a * keep);
        assert(b * (pu * UNIT) <= abs(v) * (pk * keep)) by (nonlinear_arith)
            requires
                b * UNIT <= a * keep,
                a * pu <= abs(v) * pk,
                pu > 0,
                keep >= 0,
                b >= 0,
                a >= 0,
        ;
        assert(pu * UNIT == vstd::arithmetic::power::pow(UNIT as int, n));
        assert(pk * keep == vstd::arithmetic::power::pow(keep, n));
    }
}

proof fn lemma_decay_step(a: int, keep: int)
    requires
        0 <= keep < UNIT,
    ensures
        abs(scale_tz(a, keep, UNIT as int)) * UNIT <= abs(a) * keep,
        abs(scale_tz(a, keep, UNIT as int)) <= abs(a),
        a != 0 ==> abs(scale_tz(a, keep, UNIT as int)) < abs(a),
{
    let w = abs(a);
    let q = w * keep / (UNIT as int);
    assert(w * keep >= 0) by (nonlinear_arith)
        requires w >= 0, keep >= 0;
    assert(q * UNIT <= w * keep) by (nonlinear_arith)
        requires q == w * keep / (UNIT as int), w * keep >= 0;
    assert(q >= 0) by (nonlinear_arith)
        requires q == w * keep / (UNIT as int), w * keep >= 0;
    assert(abs(scale_tz(a, keep, UNIT as int)) == q);
    if w > 0 {
        assert(w * keep < w * UNIT) by (nonlinear_arith)
            requires w > 0, keep < UNIT;
        assert(q < w) by (nonlinear_arith)
            requires q * UNIT <= w * keep, w * keep < w * UNIT;
    } else {
        assert(w * keep == 0) by (nonlinear_arith)
            requires w == 0;
    }
}

} // verus!
