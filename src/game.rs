use rand::Rng;
use vstd::prelude::*;
use crate::catalog::{
    club, club_table, lie_modifiers, lie_of, shot_at, ClubSpec, ShotType, CLUB_COUNT, PUTTER_IDX,
};
use crate::physics::{
    bounded, dist_sq, is_isqrt, norm_sq, ratio_tz, scale_tz, Vec2, COORD_BOUND, FIELD_MAX_X,
    FIELD_MAX_Y, FIELD_MIN, MAX_ROLL_TIME, UNIT,
};
use crate::planner::{is_recommendation, plan_shot};
use crate::terrain::{surface_at, terrain_surface, Surface, WIDTH};
use crate::trail::Trail;

verus! {

/// Half a turn, in micro-radians.
pub const PI_URAD: i64 = 3_141_593;

/// A full turn, in micro-radians.
pub const TAU_URAD: i64 = 6_283_186;

/// Aiming step off the green, in micro-radians (0.08 rad); on the green it is 45% of this.
pub const AIM_STEP_URAD: i64 = 80000;

/// Frames of the swing animation.
pub const SWING_FRAMES: usize = 6;

/// Time each swing frame is shown, in microseconds.
pub const SWING_FRAME_US: u64 = 70000;

/// Target length of a roll substep, in microseconds.
pub const SUBSTEP_US: u64 = 16000;

/// Bound on velocity components, in milli-tiles per second.
pub const VEL_BOUND: i64 = 1_000_000;

/// Bound on a landing point's coordinates, in milli-tiles.
pub const LAND_BOUND: i64 = 10_000_000;

/// Milli-yards per milli-tile.
pub const YARDS_PER_TILE: i64 = 5;

/// `a` turned by `k` whole turns.
pub open spec fn turned(a: int, k: int) -> int {
    a + k * TAU_URAD
}

/// `r` is `a` brought into (-pi, pi] by whole turns.
pub open spec fn is_wrapped(r: int, a: int) -> bool {
    &&& -PI_URAD < r <= PI_URAD
    &&& exists|k: int| r == #[trigger] turned(a, k)
}

/// Brings an angle (micro-radians) into (-pi, pi] by adding or removing whole turns.
pub fn wrap_angle_rad(angle: i64) -> (r: i64)
    ensures
        is_wrapped(r as int, angle as int),
{
    let mut a = angle;
    let ghost mut k: int = 0;
    while a <= -PI_URAD
        invariant
            a == angle + k * TAU_URAD,
            a <= angle || a <= PI_URAD,
        decreases PI_URAD - a,
    {
        a = a + TAU_URAD;
        proof {
            k = k + 1;
        }
    }
    while a > PI_URAD
        invariant
            a == angle + k * TAU_URAD,
            a > -PI_URAD,
        decreases a + PI_URAD,
    {
        a = a - TAU_URAD;
        proof {
            k = k - 1;
        }
    }
    assert(a == turned(angle as int, k));
    a
}

/// The fixed layout of the hole: for each column of the field, how far the
/// fairway's centre line sways from half height, in milli-tiles.
pub struct Course {
    sway: Vec<i32>,
}

impl View for Course {
    type V = Seq<i32>;

    closed spec fn view(&self) -> Seq<i32> {
        self.sway@
    }
}

impl Course {
    /// A course from one sway value per column; `None` unless there is
    /// exactly one per column of the field.
    pub fn from_sway(sway: Vec<i32>) -> (r: Option<Course>)
        ensures
            r.is_some() <==> sway@.len() == WIDTH,
            r matches Some(c) ==> c@ == sway@,
    {
        if sway.len() == WIDTH as usize {
            Some(Course { sway })
        } else {
            None
        }
    }

    /// The sway of column `x`.
    pub fn sway_at(&self, x: usize) -> (r: i32)
        requires
            x < self@.len(),
        ensures
            r == self@[x as int],
    {
        self.sway[x]
    }
}

/// Tile column or row of a coordinate in milli-tiles.
pub open spec fn tile(c: int) -> int {
    c / 1000
}

/// `p` lies where a resting or rolling ball may be.
pub open spec fn in_field(p: Vec2) -> bool {
    FIELD_MIN <= p.x <= FIELD_MAX_X && FIELD_MIN <= p.y <= FIELD_MAX_Y
}

/// Surface under point `p` of `course`.
pub open spec fn surface_under(course: Seq<i32>, p: Vec2) -> Surface {
    surface_at(tile(p.x as int), tile(p.y as int), course[tile(p.x as int)] as int)
}

/// The surface under `p` on `course`.
pub fn surface_of(course: &Course, p: Vec2) -> (r: Surface)
    requires
        course@.len() == WIDTH,
        in_field(p),
    ensures
        r == surface_under(course@, p),
{
    let tx = p.x / 1000;
    let ty = p.y / 1000;
    terrain_surface(tx as i32, ty as i32, course.sway_at(tx as usize))
}

/// The flight of a struck ball, from launch until it lands.
#[derive(Clone, Copy, Debug, PartialEq, Eq, Structural)]
pub struct AirState {
    pub start: Vec2,
    pub landing: Vec2,
    /// Time in the air so far, in microseconds.
    pub elapsed: u64,
    /// Total time in the air, in microseconds.
    pub duration: u64,
    /// Apex height, in hundredths of a tile.
    pub apex: u64,
    /// Speed given to the ball when it lands, in milli-tiles per second.
    pub rollout_speed: i64,
}

/// Fraction (of `UNIT`) of the flight completed, between 0 and `UNIT`.
pub open spec fn progress_of(a: AirState) -> int {
    let d = if a.duration < 1000 { 1000 } else { a.duration as int };
    let t = a.elapsed * UNIT / d;
    if t > UNIT { UNIT as int } else { t }
}

impl AirState {
    /// The flight's bounds, which strikes establish.
    pub open spec fn wf(&self) -> bool {
        &&& in_field(self.start)
        &&& bounded(self.landing, LAND_BOUND as int)
        &&& self.elapsed < self.duration <= LAND_BOUND
        &&& 0 <= self.rollout_speed <= 100_000
        &&& self.apex <= 100_000
    }

    /// Fraction (of `UNIT`) of the flight completed.
    pub fn progress(&self) -> (r: i64)
        requires
            self.wf(),
        ensures
            r == progress_of(*self),
            0 <= r <= UNIT,
    {
        let d: u64 = if self.duration < 1000 { 1000 } else { self.duration };
        assert(self.elapsed * UNIT <= LAND_BOUND * UNIT) by (nonlinear_arith)
            requires self.elapsed <= LAND_BOUND;
        let t: u64 = self.elapsed * (UNIT as u64) / d;
        if t > UNIT as u64 { UNIT } else { t as i64 }
    }

    /// Point on the ground below the ball: start and landing interpolated by progress.
    pub fn ground_pos(&self) -> (r: Vec2)
        requires
            self.wf(),
        ensures
            r.x == self.start.x + scale_tz(self.landing.x - self.start.x, progress_of(*self), UNIT as int),
            r.y == self.start.y + scale_tz(self.landing.y - self.start.y, progress_of(*self), UNIT as int),
    {
        let t = self.progress();
        let dx = crate::physics::scale_toward_zero(self.landing.x - self.start.x, t, UNIT);
        let dy = crate::physics::scale_toward_zero(self.landing.y - self.start.y, t, UNIT);
        Vec2 { x: self.start.x + dx, y: self.start.y + dy }
    }

    /// Height of the ball, in hundredths of a tile: `4 * apex * t * (1 - t)`
    /// for progress `t`, rounded down.
    pub fn arc_height(&self) -> (r: u64)
        requires
            self.wf(),
        ensures
            r as int == 4 * self.apex * progress_of(*self) * (UNIT - progress_of(*self)) / (UNIT * UNIT),
    {
        let t = self.progress() as u64;
        let u = UNIT as u64;
        assert(4 * self.apex * t <= 4 * 100_000 * UNIT) by (nonlinear_arith)
            requires self.apex <= 100_000, t <= UNIT;
        assert(4 * self.apex * t * (u - t) <= 4 * 100_000 * UNIT * UNIT) by (nonlinear_arith)
            requires 4 * self.apex * t <= 4 * 100_000 * UNIT, 0 <= u - t <= UNIT, u == UNIT;
        4 * self.apex * t * (u - t) / (u * u)
    }
}

/// The whole state of a hole in play.
pub struct Game {
    pub course: Course,
    /// Ball position, in milli-tiles.
    pub ball: Vec2,
    /// Ball velocity while rolling, in milli-tiles per second.
    pub velocity: Vec2,
    /// Recent positions of the rolling ball.
    pub trail: Trail<Vec2>,
    /// The cup, in milli-tiles.
    pub hole: Vec2,
    /// Aim, in micro-radians.
    pub angle: i64,
    pub selected_club_idx: usize,
    pub selected_shot: ShotType,
    pub auto_caddie: bool,
    pub strokes: u32,
    pub par: u32,
    pub hole_done: bool,
    pub rolling: bool,
    /// Wind, in thousandths; it drifts from shot to shot within [-0.5, 0.5].
    pub wind: i64,
    /// Time the current roll has lasted, in microseconds.
    pub roll_time: u64,
    pub airborne: Option<AirState>,
    pub swing_frame: usize,
    pub swing_active: bool,
    /// Time the current swing frame has been shown, in microseconds.
    pub swing_timer: u64,
    /// Where the golfer stands.
    pub golfer_anchor: Vec2,
}

/// Start of the hole: tee at (8, 12), cup at (64, 7).
pub open spec fn tee() -> Vec2 {
    Vec2 { x: 8000, y: 12000 }
}

/// The cup of the hole.
pub open spec fn cup() -> Vec2 {
    Vec2 { x: 64000, y: 7000 }
}

/// A distance in planner units (ten-thousandths of a yard),
/// given the rounded-down distance `len` in milli-tiles.
pub open spec fn planner_distance(len: int) -> int {
    len * YARDS_PER_TILE * 10
}

impl Game {
    /// The invariant of a game in play.
    pub open spec fn wf(&self) -> bool {
        &&& self.wf_core()
        &&& self.roll_time <= MAX_ROLL_TIME
    }

    /// The invariant but for the bound on the roll time, which a tick may
    /// overrun until its next substep ends the roll.
    pub open spec fn wf_core(&self) -> bool {
        &&& self.course@.len() == WIDTH
        &&& in_field(self.ball)
        &&& in_field(self.hole)
        &&& in_field(self.golfer_anchor)
        &&& bounded(self.velocity, VEL_BOUND as int)
        &&& self.trail.wf()
        &&& -PI_URAD < self.angle <= PI_URAD
        &&& self.selected_club_idx < CLUB_COUNT
        &&& -500 <= self.wind <= 500
        &&& !(self.rolling && self.airborne.is_some())
        &&& (!self.rolling ==> self.velocity == Vec2 { x: 0, y: 0 })
        &&& (self.airborne matches Some(a) ==> a.wf())
        &&& (self.hole_done ==> !self.rolling && self.airborne.is_none() && self.ball == self.hole
            && self.velocity == Vec2 { x: 0, y: 0 })
        &&& self.swing_frame < SWING_FRAMES
        &&& self.swing_timer < SWING_FRAME_US
    }

    /// Neither rolling, nor in the air, nor holed.
    pub open spec fn can_shoot_spec(&self) -> bool {
        !self.rolling && self.airborne.is_none() && !self.hole_done
    }

    /// Surface under the ball.
    pub open spec fn lie(&self) -> Surface {
        surface_under(self.course@, self.ball)
    }

    /// A fresh hole on `course`.
    pub open spec fn is_fresh(&self) -> bool {
        &&& self.ball == tee()
        &&& self.velocity == Vec2 { x: 0, y: 0 }
        &&& self.trail@.len() == 0
        &&& self.hole == cup()
        &&& self.angle == 0
        &&& self.selected_club_idx == 0
        &&& self.selected_shot == ShotType::Full
        &&& self.auto_caddie
        &&& self.strokes == 0
        &&& self.par == 4
        &&& !self.hole_done
        &&& !self.rolling
        &&& self.wind == 0
        &&& self.roll_time == 0
        &&& self.airborne.is_none()
        &&& self.swing_frame == 0
        &&& !self.swing_active
        &&& self.swing_timer == 0
        &&& self.golfer_anchor == tee()
    }

    /// A fresh hole laid out on `course`.
    pub fn new(course: Course) -> (r: Game)
        requires
            course@.len() == WIDTH,
        ensures
            r.wf(),
            r.is_fresh(),
            r.course@ == course@,
    {
        Game {
            course,
            ball: Vec2 { x: 8000, y: 12000 },
            velocity: Vec2 { x: 0, y: 0 },
            trail: Trail::new(),
            hole: Vec2 { x: 64000, y: 7000 },
            angle: 0,
            selected_club_idx: 0,
            selected_shot: ShotType::Full,
            auto_caddie: true,
            strokes: 0,
            par: 4,
            hole_done: false,
            rolling: false,
            wind: 0,
            roll_time: 0,
            airborne: None,
            swing_frame: 0,
            swing_active: false,
            swing_timer: 0,
            golfer_anchor: Vec2 { x: 8000, y: 12000 },
        }
    }

    /// Starts the hole again on the same course.
    pub fn reset(&mut self)
        requires
            old(self).course@.len() == WIDTH,
        ensures
            final(self).wf(),
            final(self).is_fresh(),
            final(self).course@ == old(self).course@,
    {
        self.ball = Vec2 { x: 8000, y: 12000 };
        self.velocity = Vec2 { x: 0, y: 0 };
        self.trail = Trail::new();
        self.hole = Vec2 { x: 64000, y: 7000 };
        self.angle = 0;
        self.selected_club_idx = 0;
        self.selected_shot = ShotType::Full;
        self.auto_caddie = true;
        self.strokes = 0;
        self.par = 4;
        self.hole_done = false;
        self.rolling = false;
        self.wind = 0;
        self.roll_time = 0;
        self.airborne = None;
        self.swing_frame = 0;
        self.swing_active = false;
        self.swing_timer = 0;
        self.golfer_anchor = Vec2 { x: 8000, y: 12000 };
    }

    /// Whether a shot may be played, or the aim, club or shape changed.
    pub fn can_shoot(&self) -> (r: bool)
        ensures
            r == self.can_shoot_spec(),
    {
        !self.rolling && self.airborne.is_none() && !self.hole_done
    }

    /// The surface under the ball.
    pub fn current_surface(&self) -> (r: Surface)
        requires
            self.wf(),
        ensures
            r == self.lie(),
    {
        surface_of(&self.course, self.ball)
    }

    /// Whether the ball lies on the green.
    pub fn on_green(&self) -> (r: bool)
        requires
            self.wf(),
        ensures
            r == (self.lie() == Surface::Green),
    {
        self.current_surface() == Surface::Green
    }

    /// How far one aiming step turns, in micro-radians: finer on the green.
    pub fn aim_step(&self) -> (r: i64)
        requires
            self.wf(),
        ensures
            r == if self.lie() == Surface::Green { 36000 } else { AIM_STEP_URAD },
    {
        if self.on_green() {
            AIM_STEP_URAD * 45 / 100
        } else {
            AIM_STEP_URAD
        }
    }

    /// The selected club.
    pub fn current_club(&self) -> (r: ClubSpec)
        requires
            self.wf(),
        ensures
            r == club_table(self.selected_club_idx as int),
    {
        club(self.selected_club_idx)
    }

    /// Distance from ball to cup in milli-tiles, rounded down.
    fn hole_distance(&self) -> (r: u64)
        requires
            self.wf(),
        ensures
            is_isqrt(r as int, dist_sq(self.ball, self.hole)),
            r <= 100_000,
    {
        let d = Vec2 { x: self.hole.x - self.ball.x, y: self.hole.y - self.ball.y };
        let r = d.length();
        proof {
            crate::physics::lemma_component_le_root(d.x as int, d.y as int, r as int);
            if r > 100_000 {
                assert(r * r > 100_000 * 100_000) by (nonlinear_arith)
                    requires r > 100_000;
                assert(d.x * d.x <= 70_000 * 70_000) by (nonlinear_arith)
                    requires -70_000 <= d.x <= 70_000;
                assert(d.y * d.y <= 70_000 * 70_000) by (nonlinear_arith)
                    requires -70_000 <= d.y <= 70_000;
            }
            assert(dist_sq(self.ball, self.hole) == norm_sq(d.x as int, d.y as int)) by (nonlinear_arith)
                requires d.x == self.hole.x - self.ball.x, d.y == self.hole.y - self.ball.y;
        }
        r
    }

    /// Distance from ball to cup, in milli-yards (rounded down in milli-tiles first).
    pub fn distance_to_hole_yd(&self) -> (r: u64)
        requires
            self.wf(),
        ensures
            exists|len: int| is_isqrt(len, dist_sq(self.ball, self.hole)) && r == len * YARDS_PER_TILE,
            r <= 500_000,
    {
        let d = self.hole_distance();
        d * 5
    }

    /// How far a putt is meant to roll, in milli-yards: on the green 135% of
    /// the distance to the cup, kept between 4 yards and the putter's
    /// rollout; elsewhere the putter's full rollout.
    fn putter_rollout_target_yd(&self, c: ClubSpec) -> (r: u64)
        requires
            self.wf(),
            c.rollout_yd <= 32,
        ensures
            r <= 32_000,
            exists|hl: int| #[trigger] is_isqrt(hl, dist_sq(self.ball, self.hole))
                && r == putt_target(self.lie(), c.rollout_yd * 1000, hl),
    {
        let max = c.rollout_yd * 1000;
        let hl = self.hole_distance();
        if self.on_green() {
            let t = hl * 5 * 135 / 100;
            if t < 4000 {
                if max < 4000 { max } else { 4000 }
            } else if t > max {
                max
            } else {
                t
            }
        } else {
            max
        }
    }

    /// Planned length of the selected shot, in milli-yards: carry and
    /// rollout scaled by the shape, or for the putter the putt's length.
    pub fn selected_shot_distance_yd(&self) -> (r: u64)
        requires
            self.wf(),
        ensures
            !club_table(self.selected_club_idx as int).putter ==> r == 10 * (club_table(
                self.selected_club_idx as int,
            ).carry_yd * self.selected_shot.carry_pct_of() + club_table(
                self.selected_club_idx as int,
            ).rollout_yd * self.selected_shot.roll_pct_of()),
            club_table(self.selected_club_idx as int).putter ==> exists|hl: int|
                #[trigger] is_isqrt(hl, dist_sq(self.ball, self.hole)) && r == putt_target(
                    self.lie(),
                    32000,
                    hl,
                ),
    {
        proof {
            lemma_club_bounds(self.selected_club_idx as int);
        }
        let c = self.current_club();
        if c.putter {
            self.putter_rollout_target_yd(c)
        } else {
            let s = self.selected_shot;
            10 * (c.carry_yd * s.carry_mult() + c.rollout_yd * s.roll_mult())
        }
    }

    /// Moves the club selection by `delta`, wrapping around the bag; the
    /// shape goes back to full and the caddie to manual. Nothing happens
    /// unless a shot may be played.
    pub fn cycle_club(&mut self, delta: i32)
        requires
            old(self).wf(),
        ensures
            final(self).wf(),
            old(self).can_shoot_spec() ==> {
                &&& final(self).selected_club_idx as int == (old(self).selected_club_idx as int + delta as int) % (CLUB_COUNT as int)
                &&& final(self).selected_shot == ShotType::Full
                &&& !final(self).auto_caddie
                &&& final(self).wf()
                &&& *final(self) == (Game {
                    selected_club_idx: final(self).selected_club_idx,
                    selected_shot: ShotType::Full,
                    auto_caddie: false,
                    ..*old(self)
                })
            },
            !old(self).can_shoot_spec() ==> *final(self) == *old(self),
            final(self).ball == old(self).ball && final(self).course@ == old(self).course@,
    {
        if !self.can_shoot() {
            return;
        }
        // 2^31 is a multiple of the bag size, so shifting by it keeps the residue.
        let shifted: i64 = self.selected_club_idx as i64 + delta as i64 + 0x8000_0000;
        let idx: u64 = (shifted as u64) % (CLUB_COUNT as u64);
        proof {
            let t = self.selected_club_idx as int + delta as int;
            vstd::arithmetic::div_mod::lemma_mod_multiples_vanish(0x800_0000, t, 16);
        }
        self.selected_club_idx = idx as usize;
        self.selected_shot = ShotType::Full;
        self.auto_caddie = false;
    }

    /// Moves to the next shot shape, wrapping around, and sets the caddie to
    /// manual. Nothing happens with the putter or unless a shot may be played.
    pub fn cycle_shot_type(&mut self)
        requires
            old(self).wf(),
        ensures
            final(self).wf(),
            old(self).can_shoot_spec() && !club_table(old(self).selected_club_idx as int).putter ==> {
                &&& final(self).selected_shot == shot_at((old(self).selected_shot.index_of() + 1) % 5)
                &&& !final(self).auto_caddie
                &&& final(self).selected_club_idx == old(self).selected_club_idx
                &&& *final(self) == (Game {
                    selected_shot: final(self).selected_shot,
                    auto_caddie: false,
                    ..*old(self)
                })
            },
            !(old(self).can_shoot_spec() && !club_table(old(self).selected_club_idx as int).putter)
                ==> *final(self) == *old(self),
            final(self).ball == old(self).ball && final(self).course@ == old(self).course@,
    {
        if !self.can_shoot() || self.current_club().putter {
            return;
        }
        self.selected_shot = self.selected_shot.next();
        self.auto_caddie = false;
    }

    /// The caddie's recommendation for the ball as it lies now.
    pub open spec fn recommended(&self, r: (usize, ShotType)) -> bool {
        exists|len: int|
            is_isqrt(len, dist_sq(self.ball, self.hole)) && is_recommendation(
                r,
                planner_distance(len),
                self.lie(),
            )
    }

    /// Selects the club and shape that the caddie recommends.
    fn auto_select_shot(&mut self)
        requires
            old(self).wf(),
        ensures
            final(self).wf(),
            final(self).recommended((final(self).selected_club_idx, final(self).selected_shot)),
            *final(self) == (Game {
                selected_club_idx: final(self).selected_club_idx,
                selected_shot: final(self).selected_shot,
                ..*old(self)
            }),
    {
        let d = self.hole_distance();
        let lie = self.current_surface();
        let (i, s) = plan_shot(d * 50, lie);
        self.selected_club_idx = i;
        self.selected_shot = s;
        assert(planner_distance(d as int) == (d * 50) as int);
        assert(is_isqrt(d as int, dist_sq(self.ball, self.hole)) && is_recommendation(
            (i, s),
            planner_distance(d as int),
            self.lie(),
        ));
    }

    /// Turns the caddie on or off; turning it on while a shot may be played
    /// selects its recommendation at once.
    pub fn toggle_auto_caddie(&mut self)
        requires
            old(self).wf(),
        ensures
            final(self).wf(),
            final(self).auto_caddie == !old(self).auto_caddie,
            final(self).auto_caddie && old(self).can_shoot_spec() ==> final(self).recommended(
                (final(self).selected_club_idx, final(self).selected_shot),
            ),
            !(final(self).auto_caddie && old(self).can_shoot_spec()) ==> *final(self) == (Game {
                auto_caddie: final(self).auto_caddie,
                ..*old(self)
            }),
            *final(self) == (Game {
                selected_club_idx: final(self).selected_club_idx,
                selected_shot: final(self).selected_shot,
                auto_caddie: final(self).auto_caddie,
                ..*old(self)
            }),
    {
        self.auto_caddie = !self.auto_caddie;
        if self.auto_caddie && self.can_shoot() {
            self.auto_select_shot();
        }
    }
}

/// Length of a putt on the green, in milli-yards: 135% of the distance `d`,
/// kept between 4 yards and `max`.
pub open spec fn putt_length(d: int, max: int) -> int {
    let t = d * 135 / 100;
    if t < 4000 {
        if max < 4000 { max } else { 4000 }
    } else if t > max {
        max
    } else {
        t
    }
}

/// A coordinate outside `[lo, hi]` is put back on the nearer edge.
pub open spec fn bounce_pos(p: int, lo: int, hi: int) -> int {
    if p < lo {
        lo
    } else if p > hi {
        hi
    } else {
        p
    }
}

/// A coordinate outside `[lo, hi]` reverses its velocity and keeps 35% of it.
pub open spec fn bounce_vel(p: int, v: int, lo: int, hi: int) -> int {
    if p < lo || p > hi {
        -scale_tz(v, 35, 100)
    } else {
        v
    }
}

fn bounce_axis(p: i64, v: i64, lo: i64, hi: i64) -> (r: (i64, i64))
    requires
        -COORD_BOUND <= v <= COORD_BOUND,
    ensures
        r.0 == bounce_pos(p as int, lo as int, hi as int),
        r.1 == bounce_vel(p as int, v as int, lo as int, hi as int),
        -COORD_BOUND <= r.1 <= COORD_BOUND,
        v >= 0 ==> -v <= r.1 <= v,
        v < 0 ==> v <= r.1 <= -v,
{
    if p < lo || p > hi {
        let nv = crate::physics::scale_toward_zero(v, 35, 100);
        (if p < lo { lo } else { hi }, -nv)
    } else {
        (p, v)
    }
}

/// Position and velocity after one substep of `step` microseconds, before
/// the cup is considered: the ball moves by its velocity, drag of the
/// surface it started on takes its share of the velocity, and each axis
/// that left the field bounces.
pub open spec fn motion(course: Seq<i32>, b: Vec2, v: Vec2, step: int) -> (Vec2, Vec2) {
    let keep = crate::physics::drag_keep(surface_under(course, b).drag_of(), step);
    let px = b.x + scale_tz(v.x as int, step, UNIT as int);
    let py = b.y + scale_tz(v.y as int, step, UNIT as int);
    let vx = if norm_sq(v.x as int, v.y as int) > 0 { scale_tz(v.x as int, keep, UNIT as int) } else { v.x as int };
    let vy = if norm_sq(v.x as int, v.y as int) > 0 { scale_tz(v.y as int, keep, UNIT as int) } else { v.y as int };
    (
        Vec2 { x: bounce_pos(px, FIELD_MIN as int, FIELD_MAX_X as int) as i64, y: bounce_pos(py, FIELD_MIN as int, FIELD_MAX_Y as int) as i64 },
        Vec2 { x: bounce_vel(px, vx, FIELD_MIN as int, FIELD_MAX_X as int) as i64, y: bounce_vel(py, vy, FIELD_MIN as int, FIELD_MAX_Y as int) as i64 },
    )
}

/// Velocity of a ball that lips out: 80% of it is cancelled (what is left
/// is reversed, at 20%) and a pull of `LIP_PULL` toward the cup is added
/// along `to_cup`, the offset from the ball to the cup, whose length is `len`.
pub open spec fn lip_velocity(v: Vec2, to_cup: Vec2, len: int) -> Vec2 {
    Vec2 {
        x: (-scale_tz(v.x as int, 20, 100) + scale_tz(to_cup.x as int, crate::physics::LIP_PULL as int, len)) as i64,
        y: (-scale_tz(v.y as int, 20, 100) + scale_tz(to_cup.y as int, crate::physics::LIP_PULL as int, len)) as i64,
    }
}

/// `g1` follows from the rolling game `g0` by one substep of `step`
/// microseconds: the ball moves and bounces as [`motion`] says; then it
/// drops into the cup, or else it is recorded in the trail, deflected if it
/// lips out, and stopped if the roll ends.
pub open spec fn substep_ok(g0: Game, g1: Game, step: int) -> bool {
    let (b2, v2) = motion(g0.course@, g0.ball, g0.velocity, step);
    let dist = dist_sq(b2, g0.hole);
    let sp = norm_sq(v2.x as int, v2.y as int);
    let green = surface_under(g0.course@, b2) == Surface::Green;
    &&& crate::physics::drops(dist, sp, green) ==> g1 == (Game {
        ball: g0.hole,
        velocity: Vec2 { x: 0, y: 0 },
        rolling: false,
        hole_done: true,
        roll_time: 0,
        ..g0
    })
    &&& !crate::physics::drops(dist, sp, green) ==> {
        &&& g1.ball == b2
        &&& g1.trail@ == crate::trail::trail_step(g0.trail@, b2)
        &&& !g1.hole_done
        &&& crate::physics::roll_ends(sp, g0.roll_time as int) ==> !g1.rolling && g1.roll_time == 0
            && g1.velocity == Vec2 { x: 0, y: 0 }
        &&& !crate::physics::roll_ends(sp, g0.roll_time as int) ==> g1.rolling
            && g1.roll_time == g0.roll_time
            && (crate::physics::lips_out(dist, sp, green) ==> exists|len: int|
                is_isqrt(len, dist) && g1.velocity == lip_velocity(
                    v2,
                    Vec2 { x: (g0.hole.x - b2.x) as i64, y: (g0.hole.y - b2.y) as i64 },
                    len,
                ))
            && (!crate::physics::lips_out(dist, sp, green) ==> g1.velocity == v2)
        &&& g1 == (Game {
            ball: g1.ball,
            velocity: g1.velocity,
            trail: g1.trail,
            rolling: g1.rolling,
            roll_time: g1.roll_time,
            ..g0
        })
    }
}

/// `gs` is a roll in substeps of `step` microseconds: each state follows
/// from the one before by a substep, and the ball was still rolling at
/// every state but the last.
pub open spec fn roll_run(gs: Seq<Game>, step: int) -> bool {
    &&& gs.len() >= 1
    &&& forall|i: int|
        0 <= i < gs.len() - 1 ==> (#[trigger] gs[i]).rolling && substep_ok(gs[i], gs[i + 1], step)
}

impl Game {
    /// Advances a rolling ball by one substep of `step` microseconds and
    /// tells whether the roll is over: the ball moved and bounced as
    /// [`motion`] says; then it drops into the cup, or else it is recorded
    /// in the trail, deflected if it lips out, and stopped if the roll ends.
    pub fn roll_substep(&mut self, step: u64) -> (stop: bool)
        requires
            old(self).wf_core(),
            old(self).rolling,
            step <= SUBSTEP_US,
        ensures
            final(self).wf_core(),
            !stop ==> final(self).rolling && final(self).roll_time <= MAX_ROLL_TIME,
            stop ==> !final(self).rolling && final(self).roll_time == 0,
            substep_ok(*old(self), *final(self), step as int),
            stop == !final(self).rolling,
    {
        let surface = surface_of(&self.course, self.ball);
        let v = self.velocity;
        let mx = crate::physics::scale_toward_zero(v.x, step as i64, UNIT);
        let my = crate::physics::scale_toward_zero(v.y, step as i64, UNIT);
        let mut vx = v.x;
        let mut vy = v.y;
        if v.length_sq() > 0 {
            let keep = crate::physics::drag_factor(surface.drag_strength(), step);
            vx = crate::physics::scale_toward_zero(vx, keep, UNIT);
            vy = crate::physics::scale_toward_zero(vy, keep, UNIT);
        }
        let (px, vx) = bounce_axis(self.ball.x + mx, vx, FIELD_MIN, FIELD_MAX_X);
        let (py, vy) = bounce_axis(self.ball.y + my, vy, FIELD_MIN, FIELD_MAX_Y);
        let b2 = Vec2 { x: px, y: py };
        let v2 = Vec2 { x: vx, y: vy };
        let rel = Vec2 { x: self.hole.x - px, y: self.hole.y - py };
        let dist = rel.length_sq();
        assert(dist_sq(b2, self.hole) == norm_sq(rel.x as int, rel.y as int)) by (nonlinear_arith)
            requires rel.x == self.hole.x - b2.x, rel.y == self.hole.y - b2.y;
        let sp = v2.length_sq();
        let green = surface_of(&self.course, b2) == Surface::Green;
        if crate::physics::sink_check(dist, sp, green) {
            self.ball = self.hole;
            self.velocity = Vec2 { x: 0, y: 0 };
            self.rolling = false;
            self.hole_done = true;
            self.roll_time = 0;
            return true;
        }
        let mut v3 = v2;
        if crate::physics::lip_out_check(dist, sp, green) {
            let len = rel.length();
            assert(dist >= 420 * 420);
            proof {
                crate::physics::lemma_component_le_root(rel.x as int, rel.y as int, len as int);
                crate::physics::lemma_component_le_root(rel.y as int, rel.x as int, len as int);
                assert(len > 0) by (nonlinear_arith)
                    requires is_isqrt(len as int, dist as int), dist >= 1;
                assert(len <= 2 * COORD_BOUND) by (nonlinear_arith)
                    requires is_isqrt(len as int, dist as int), dist < 1120 * 1120;
            }
            let l = len as i64;
            let px_pull = ratio_tz(rel.x, crate::physics::LIP_PULL, l);
            let py_pull = ratio_tz(rel.y, crate::physics::LIP_PULL, l);
            let kx = crate::physics::scale_toward_zero(v2.x, 20, 100);
            let ky = crate::physics::scale_toward_zero(v2.y, 20, 100);
            proof {
                crate::physics::lemma_scale_tz_fifth(v2.x as int);
                crate::physics::lemma_scale_tz_fifth(v2.y as int);
            }
            v3 = Vec2 { x: -kx + px_pull, y: -ky + py_pull };
            assert(v3 == lip_velocity(v2, rel, len as int));
        }
        self.ball = b2;
        self.trail.push(b2);
        if crate::physics::roll_end_check(sp, self.roll_time) {
            self.velocity = Vec2 { x: 0, y: 0 };
            self.rolling = false;
            self.roll_time = 0;
            return true;
        }
        self.velocity = v3;
        false
    }
}

/// Swing animation state `(frame, active, timer)` after `dt` microseconds
/// from `(frame, active, timer)`: each frame is shown for `SWING_FRAME_US`,
/// and after the last the animation stops on frame zero.
pub open spec fn swing_next(frame: int, active: bool, timer: int, dt: int) -> (int, bool, int) {
    if !active {
        (frame, active, timer)
    } else if timer + dt >= SWING_FRAME_US {
        if frame + 1 < SWING_FRAMES {
            (frame + 1, true, 0)
        } else {
            (0, false, 0)
        }
    } else {
        (frame, true, timer + dt)
    }
}

impl Game {
    /// Advances the swing animation; while idle and able to shoot, the golfer
    /// stands at the ball and the animation rests on its first frame.
    fn update_swing(&mut self, dt: u64)
        requires
            old(self).wf_core(),
        ensures
            final(self).wf_core(),
            old(self).swing_active ==> {
                let (f, a, t) = swing_next(old(self).swing_frame as int, true, old(self).swing_timer as int, dt as int);
                &&& final(self).swing_frame == f
                &&& final(self).swing_active == a
                &&& final(self).swing_timer == t
                &&& final(self).golfer_anchor == old(self).golfer_anchor
            },
            !old(self).swing_active && old(self).can_shoot_spec() ==> final(self).swing_frame == 0
                && final(self).golfer_anchor == old(self).ball && !final(self).swing_active
                && final(self).swing_timer == old(self).swing_timer,
            !old(self).swing_active && !old(self).can_shoot_spec() ==> final(self).swing_frame
                == old(self).swing_frame && final(self).golfer_anchor == old(self).golfer_anchor
                && !final(self).swing_active && final(self).swing_timer == old(self).swing_timer,
            *final(self) == (Game {
                swing_frame: final(self).swing_frame,
                swing_active: final(self).swing_active,
                swing_timer: final(self).swing_timer,
                golfer_anchor: final(self).golfer_anchor,
                ..*old(self)
            }),
    {
        if self.swing_active {
            if dt >= SWING_FRAME_US - self.swing_timer {
                self.swing_timer = 0;
                if self.swing_frame + 1 < SWING_FRAMES {
                    self.swing_frame = self.swing_frame + 1;
                } else {
                    self.swing_active = false;
                    self.swing_frame = 0;
                }
            } else {
                self.swing_timer = self.swing_timer + dt;
            }
        } else if self.can_shoot() {
            self.swing_frame = 0;
            self.golfer_anchor = self.ball;
        }
    }

    /// Advances a flight by `dt`; when its time is up the ball lands: it is
    /// put on the landing point (kept inside the field) and starts rolling
    /// along the direction of flight at the flight's rollout speed, nudged
    /// sideways by 12% of the wind.
    fn advance_flight(&mut self, dt: u64)
        requires
            old(self).wf(),
            old(self).airborne.is_some(),
        ensures
            final(self).wf(),
            ({
                let a = old(self).airborne.unwrap();
                &&& a.elapsed + dt < a.duration ==> *final(self) == (Game {
                    airborne: Some(AirState { elapsed: (a.elapsed + dt) as u64, ..a }),
                    ..*old(self)
                })
                &&& a.elapsed + dt >= a.duration ==> {
                    &&& final(self).airborne.is_none()
                    &&& final(self).rolling
                    &&& final(self).roll_time == 0
                    &&& final(self).ball == landing_spot(a.landing)
                    &&& exists|len: int|
                        is_isqrt(len, dist_sq(a.landing, a.start)) && final(self).velocity == touchdown_velocity(
                            a,
                            len,
                            old(self).wind as int,
                        )
                    &&& *final(self) == (Game {
                        ball: final(self).ball,
                        velocity: final(self).velocity,
                        airborne: None,
                        rolling: true,
                        roll_time: 0,
                        ..*old(self)
                    })
                }
            }),
    {
        let a = self.airborne.unwrap();
        if dt < a.duration - a.elapsed {
            self.airborne = Some(AirState { elapsed: a.elapsed + dt, ..a });
            return;
        }
        let lx = if a.landing.x < FIELD_MIN { FIELD_MIN } else if a.landing.x > FIELD_MAX_X { FIELD_MAX_X } else { a.landing.x };
        let ly = if a.landing.y < FIELD_MIN { FIELD_MIN } else if a.landing.y > FIELD_MAX_Y { FIELD_MAX_Y } else { a.landing.y };
        let span = Vec2 { x: a.landing.x - a.start.x, y: a.landing.y - a.start.y };
        let dir = span.normalized();
        let ghost len = choose|len: int| is_isqrt(len, norm_sq(span.x as int, span.y as int)) && dir == crate::physics::unit_of(span, len);
        let wx = crate::physics::scale_toward_zero(self.wind, 12, 100);
        let vx = ratio_tz(dir.x, a.rollout_speed, UNIT) + wx;
        let vy = ratio_tz(dir.y, a.rollout_speed, UNIT);
        self.ball = Vec2 { x: lx, y: ly };
        self.airborne = None;
        self.velocity = Vec2 { x: vx, y: vy };
        self.rolling = true;
        self.roll_time = 0;
        assert(dist_sq(a.landing, a.start) == norm_sq(span.x as int, span.y as int));
        assert(self.velocity == touchdown_velocity(a, len, old(self).wind as int));
    }
}

/// Where a flight ending at `p` comes to rest: `p` kept inside the field.
pub open spec fn landing_spot(p: Vec2) -> Vec2 {
    Vec2 {
        x: bounce_pos(p.x as int, FIELD_MIN as int, FIELD_MAX_X as int) as i64,
        y: bounce_pos(p.y as int, FIELD_MIN as int, FIELD_MAX_Y as int) as i64,
    }
}

/// Velocity at touchdown of flight `a`, whose launch-to-landing span has
/// length `len`, in wind `wind`: the span's direction at the rollout speed,
/// plus 12% of the wind along x.
pub open spec fn touchdown_velocity(a: AirState, len: int, wind: int) -> Vec2 {
    let dir = crate::physics::unit_of(Vec2 { x: (a.landing.x - a.start.x) as i64, y: (a.landing.y - a.start.y) as i64 }, len);
    Vec2 {
        x: (scale_tz(dir.x as int, a.rollout_speed as int, UNIT as int) + scale_tz(wind, 12, 100)) as i64,
        y: scale_tz(dir.y as int, a.rollout_speed as int, UNIT as int) as i64,
    }
}

/// A holed game is terminal: the ball sits in the cup without moving and no
/// shot can be played; `update` keeps it so on every later tick.
pub proof fn lemma_holed_is_terminal(g: Game)
    requires
        g.wf(),
        g.hole_done,
    ensures
        g.ball == g.hole,
        g.velocity == (Vec2 { x: 0, y: 0 }),
        !g.rolling,
        g.airborne.is_none(),
        !g.can_shoot_spec(),
{
}

/// A flight `air` ends within a tick of `dt` microseconds.
pub open spec fn lands(air: Option<AirState>, dt: int) -> bool {
    air matches Some(a) && a.elapsed + dt >= a.duration
}

/// Number of roll substeps for a tick of `dt` microseconds: enough that none
/// is longer than `SUBSTEP_US`, and at least one.
pub open spec fn substep_count(dt: int) -> int {
    if dt <= SUBSTEP_US {
        1
    } else if (dt / (SUBSTEP_US as int)) * SUBSTEP_US == dt {
        dt / (SUBSTEP_US as int)
    } else {
        dt / (SUBSTEP_US as int) + 1
    }
}

/// Roll time after a tick of `dt` microseconds, saturating at the integer width.
pub open spec fn tick_roll_time(roll_time: int, dt: int) -> int {
    if roll_time + dt > u64::MAX {
        u64::MAX as int
    } else {
        roll_time + dt
    }
}

impl Game {
    /// Advances the game by `dt` microseconds: the swing animation runs; a
    /// holed ball stays put; a flight advances and may land; a rolling ball
    /// runs `substep_count(dt)` substeps of `dt / substep_count(dt)` each,
    /// until it drops or stops; and once the ball rests with a shot to play,
    /// an active caddie selects its recommendation.
    pub fn update(&mut self, dt: u64)
        requires
            old(self).wf(),
        ensures
            final(self).wf(),
            final(self).course@ == old(self).course@,
            final(self).hole == old(self).hole,
            final(self).angle == old(self).angle,
            final(self).strokes == old(self).strokes,
            final(self).par == old(self).par,
            final(self).wind == old(self).wind,
            final(self).auto_caddie == old(self).auto_caddie,
            old(self).hole_done ==> {
                &&& final(self).hole_done
                &&& final(self).ball == old(self).ball
                &&& final(self).velocity == old(self).velocity
                &&& final(self).trail@ == old(self).trail@
                &&& !final(self).rolling
                &&& final(self).airborne.is_none()
                &&& final(self).selected_club_idx == old(self).selected_club_idx
                &&& final(self).selected_shot == old(self).selected_shot
                &&& *final(self) == (Game {
                    swing_frame: final(self).swing_frame,
                    swing_active: final(self).swing_active,
                    swing_timer: final(self).swing_timer,
                    ..*old(self)
                })
            },
            old(self).airborne.is_some() && old(self).airborne.unwrap().elapsed + dt < old(self).airborne.unwrap().duration ==> {
                &&& final(self).airborne == Some(AirState { elapsed: (old(self).airborne.unwrap().elapsed + dt) as u64, ..old(self).airborne.unwrap() })
                &&& final(self).ball == old(self).ball
                &&& !final(self).rolling
                &&& final(self).trail@ == old(self).trail@
                &&& *final(self) == (Game {
                    airborne: final(self).airborne,
                    swing_frame: final(self).swing_frame,
                    swing_active: final(self).swing_active,
                    swing_timer: final(self).swing_timer,
                    ..*old(self)
                })
            },
            old(self).can_shoot_spec() ==> {
                &&& final(self).ball == old(self).ball
                &&& final(self).velocity == old(self).velocity
                &&& final(self).trail@ == old(self).trail@
                &&& final(self).can_shoot_spec()
            },
            old(self).can_shoot_spec() && !old(self).auto_caddie ==> final(self).selected_club_idx
                == old(self).selected_club_idx && final(self).selected_shot == old(self).selected_shot,
            final(self).can_shoot_spec() && final(self).auto_caddie ==> final(self).recommended(
                (final(self).selected_club_idx, final(self).selected_shot),
            ),
            old(self).swing_active ==> {
                let (f, a, t) = swing_next(old(self).swing_frame as int, true, old(self).swing_timer as int, dt as int);
                &&& final(self).swing_frame == f
                &&& final(self).swing_active == a
                &&& final(self).swing_timer == t
            },
            !old(self).swing_active ==> !final(self).swing_active,
            old(self).rolling && final(self).rolling ==> final(self).roll_time == old(self).roll_time + dt,
            old(self).rolling && old(self).roll_time + dt > MAX_ROLL_TIME ==> !final(self).rolling,
            !final(self).rolling ==> final(self).velocity == (Vec2 { x: 0, y: 0 }),
            old(self).rolling || lands(old(self).airborne, dt as int) ==> exists|gs: Seq<Game>| {
                &&& #[trigger] roll_run(gs, (dt as int) / substep_count(dt as int))
                &&& gs.len() <= substep_count(dt as int) + 1
                &&& (gs.len() == substep_count(dt as int) + 1 || !gs.last().rolling)
                &&& gs[0] == (Game {
                    ball: gs[0].ball,
                    velocity: gs[0].velocity,
                    airborne: None,
                    rolling: true,
                    roll_time: (if old(self).rolling { tick_roll_time(old(self).roll_time as int, dt as int) } else { dt as int }) as u64,
                    swing_frame: final(self).swing_frame,
                    swing_active: final(self).swing_active,
                    swing_timer: final(self).swing_timer,
                    ..*old(self)
                })
                &&& old(self).rolling ==> gs[0].ball == old(self).ball && gs[0].velocity == old(self).velocity
                &&& !old(self).rolling ==> gs[0].ball == landing_spot(old(self).airborne.unwrap().landing)
                    && exists|len: int|
                        is_isqrt(len, dist_sq(old(self).airborne.unwrap().landing, old(self).airborne.unwrap().start))
                        && gs[0].velocity == touchdown_velocity(old(self).airborne.unwrap(), len, old(self).wind as int)
                &&& *final(self) == (Game {
                    selected_club_idx: final(self).selected_club_idx,
                    selected_shot: final(self).selected_shot,
                    ..gs.last()
                })
            },
    {
        self.update_swing(dt);
        if self.hole_done {
            return;
        }
        if self.airborne.is_some() {
            self.advance_flight(dt);
        }
        if !self.rolling {
            if self.can_shoot() && self.auto_caddie {
                self.auto_select_shot();
            }
            return;
        }
        let substeps: u64 = if dt <= SUBSTEP_US {
            1
        } else if (dt / SUBSTEP_US) * SUBSTEP_US == dt {
            dt / SUBSTEP_US
        } else {
            dt / SUBSTEP_US + 1
        };
        assert(substeps as int == substep_count(dt as int));
        proof {
            let q = dt as int / (SUBSTEP_US as int);
            assert(q * SUBSTEP_US <= dt < q * SUBSTEP_US + SUBSTEP_US) by (nonlinear_arith)
                requires q == dt as int / (SUBSTEP_US as int), dt >= 0;
            assert(substeps * SUBSTEP_US >= dt && substeps >= 1);
        }
        let step: u64 = dt / substeps;
        assert(step <= SUBSTEP_US) by (nonlinear_arith)
            requires
                step == dt / substeps,
                substeps >= 1,
                substeps * SUBSTEP_US >= dt,
        ;
        self.roll_time = if dt > u64::MAX - self.roll_time { u64::MAX } else { self.roll_time + dt };
        let ghost g0 = *self;
        let ghost mut gs: Seq<Game> = seq![*self];
        let mut i: u64 = 0;
        let mut done = false;
        while i < substeps && !done
            invariant
                roll_run(gs, step as int),
                gs.len() == i + 1,
                gs[0] == g0,
                gs.last() == *self,
                self.wf_core(),
                i <= substeps,
                step <= SUBSTEP_US,
                !done ==> self.rolling && (i > 0 ==> self.roll_time <= MAX_ROLL_TIME),
                !done ==> self.roll_time == g0.roll_time,
                substeps >= 1,
                done ==> !self.rolling && self.roll_time == 0,
                self.course@ == g0.course@,
                self.hole == g0.hole,
                self.angle == g0.angle,
                self.selected_club_idx == g0.selected_club_idx,
                self.selected_shot == g0.selected_shot,
                self.auto_caddie == g0.auto_caddie,
                self.strokes == g0.strokes,
                self.par == g0.par,
                self.wind == g0.wind,
                self.airborne.is_none(),
                self.swing_frame == g0.swing_frame,
                self.swing_active == g0.swing_active,
                self.swing_timer == g0.swing_timer,
            decreases substeps - i,
        {
            let ghost before = *self;
            done = self.roll_substep(step);
            proof {
                let prev = gs;
                gs = gs.push(*self);
                assert forall|j: int| 0 <= j < gs.len() - 1 implies (#[trigger] gs[j]).rolling
                    && substep_ok(gs[j], gs[j + 1], step as int) by {
                    if j < prev.len() - 1 {
                        assert(gs[j] == prev[j]);
                        assert(gs[j + 1] == prev[j + 1]);
                    } else {
                        assert(gs[j] == before);
                    }
                }
            }
            i = i + 1;
        }
        if self.can_shoot() && self.auto_caddie {
            self.auto_select_shot();
        }
    }
}

/// Relies on rand::thread_rng and rand::Rng::gen_range: a draw from `lo..hi`,
/// which panics only on an empty range.
#[verifier::external_body]
fn draw_uniform(lo: i64, hi: i64) -> (r: i64)
    requires
        lo < hi,
    ensures
        lo <= r < hi,
{
    rand::thread_rng().gen_range(lo..hi)
}

/// How far a putt is meant to roll from lie `lie`, in milli-yards, with the
/// putter's rollout `max` and the rounded-down distance `hl` (milli-tiles)
/// to the cup.
pub open spec fn putt_target(lie: Surface, max: int, hl: int) -> int {
    if lie == Surface::Green {
        putt_length(hl * YARDS_PER_TILE, max)
    } else {
        max
    }
}

/// Velocity of a putt along direction `d` (scaled to `UNIT`) at speed `v`,
/// nudged along x by 3.5% of the wind.
pub open spec fn putt_velocity(d: Vec2, v: int, wind: int) -> Vec2 {
    Vec2 {
        x: (scale_tz(d.x as int, v, UNIT as int) + scale_tz(wind, 35, 1000)) as i64,
        y: scale_tz(d.y as int, v, UNIT as int) as i64,
    }
}

/// The aim `angle` turned by `offset`.
pub open spec fn deflect(angle: int, offset: int) -> int {
    angle + offset
}

/// Most the wind can change between shots, in thousandths.
pub const WIND_DRIFT: i64 = 140;

/// Speed of a putt meant to roll `target` milli-yards from a lie that keeps
/// `roll_pct` percent of roll: 2.2 times the length in tiles per second, at
/// least 0.85 tiles per second.
pub open spec fn putt_speed(target: int, roll_pct: int) -> int {
    let tiles = target * roll_pct / 500;
    let v = tiles * 22 / 10;
    if v < 850 { 850 } else { v }
}

/// The flight of shot shape `s` with club `c` from `ball` along direction
/// `d` (scaled to `UNIT`), from lie `lie`, in wind `wind`: carry and roll
/// scaled by shape and lie, the landing point pushed along x by the wind in
/// proportion to the club's carry, and air time and apex scaled by the
/// shape's arc.
pub open spec fn flight_of(ball: Vec2, d: Vec2, c: ClubSpec, s: ShotType, lie: Surface, wind: int) -> AirState {
    let carry = c.carry_yd * s.carry_pct_of() * lie_of(lie).0 / 50;
    let roll = c.rollout_yd * s.roll_pct_of() * lie_of(lie).1 / 50;
    let push = scale_tz(wind, c.carry_yd * 8, 500);
    AirState {
        start: ball,
        landing: Vec2 {
            x: (ball.x + scale_tz(d.x as int, carry, UNIT as int) + push) as i64,
            y: (ball.y + scale_tz(d.y as int, carry, UNIT as int)) as i64,
        },
        elapsed: 0,
        duration: (c.air_time_ms * s.arc_pct_of() * 10) as u64,
        apex: (c.apex_centi * s.arc_pct_of() / 100) as u64,
        rollout_speed: (2 * roll) as i64,
    }
}

/// Bounds of every club in the bag.
proof fn lemma_club_bounds(i: int)
    requires
        0 <= i < CLUB_COUNT,
    ensures
        club_table(i).carry_yd <= 255,
        club_table(i).rollout_yd <= 32,
        club_table(i).apex_centi <= 410,
        club_table(i).dispersion_urad <= 35000,
        club_table(i).putter <==> i == PUTTER_IDX,
        !club_table(i).putter ==> 450 <= club_table(i).air_time_ms <= 1000,
{
}

impl Game {
    /// Angular spread of the next strike, in micro-radians: a fixed small
    /// spread for a putt on the green, else the club's plus the lie's.
    pub open spec fn dispersion_of(&self) -> int {
        let c = club_table(self.selected_club_idx as int);
        if c.putter && self.lie() == Surface::Green {
            2500
        } else {
            c.dispersion_urad + lie_of(self.lie()).2
        }
    }

    /// Angular spread of the next strike, in micro-radians.
    pub fn shot_dispersion(&self) -> (r: u64)
        requires
            self.wf(),
        ensures
            r == self.dispersion_of(),
            0 < r <= 100_000,
    {
        proof {
            lemma_club_bounds(self.selected_club_idx as int);
        }
        let c = self.current_club();
        let lie = self.current_surface();
        if c.putter && lie == Surface::Green {
            2500
        } else {
            let (_, _, ld) = lie_modifiers(lie);
            c.dispersion_urad + ld
        }
    }

    /// Direction of a strike deflected by `offset` micro-radians from the aim.
    pub fn launch_angle(&self, offset: i64) -> (r: i64)
        requires
            self.wf(),
            -UNIT <= offset <= UNIT,
        ensures
            is_wrapped(r as int, self.angle + offset),
    {
        wrap_angle_rad(self.angle + offset)
    }

    /// Draws the direction of the next strike: the aim deflected by a
    /// uniform draw within the shot's dispersion.
    pub fn draw_launch_angle(&self) -> (r: i64)
        requires
            self.wf(),
        ensures
            exists|offset: int|
                -self.dispersion_of() <= offset < self.dispersion_of() && is_wrapped(
                    r as int,
                    #[trigger] deflect(self.angle as int, offset),
                ),
    {
        let d = self.shot_dispersion() as i64;
        let offset = draw_uniform(-d, d);
        let r = self.launch_angle(offset);
        assert(is_wrapped(r as int, deflect(self.angle as int, offset as int)));
        r
    }

    /// Draws the change of the wind before a strike.
    pub fn draw_wind_change() -> (r: i64)
        ensures
            -WIND_DRIFT <= r < WIND_DRIFT,
    {
        draw_uniform(-WIND_DRIFT, WIND_DRIFT)
    }

    /// Strikes the ball along `launch_dir` (a direction scaled to `UNIT`,
    /// normalized again here) after the wind has changed by `wind_change`.
    /// Nothing happens unless a shot may be played. A strike counts a
    /// stroke, clears the trail, starts the swing with the golfer at the
    /// ball, and moves the wind, kept within [-0.5, 0.5]. A putt starts
    /// rolling at once; any other club sends the ball into the air.
    pub fn hit_ball(&mut self, wind_change: i64, launch_dir: Vec2)
        requires
            old(self).wf(),
            -UNIT <= wind_change <= UNIT,
            bounded(launch_dir, UNIT as int),
        ensures
            final(self).wf(),
            !old(self).can_shoot_spec() ==> *final(self) == *old(self),
            old(self).can_shoot_spec() ==> {
                let wind = if old(self).wind + wind_change < -500 { -500 } else if old(self).wind + wind_change > 500 { 500 } else { old(self).wind + wind_change };
                let c = club_table(old(self).selected_club_idx as int);
                let lie = old(self).lie();
                &&& final(self).strokes == if old(self).strokes < u32::MAX { old(self).strokes + 1 } else { old(self).strokes as int }
                &&& final(self).trail@.len() == 0
                &&& final(self).swing_active && final(self).swing_frame == 0 && final(self).swing_timer == 0
                &&& final(self).golfer_anchor == old(self).ball
                &&& final(self).wind == wind
                &&& final(self).ball == old(self).ball
                &&& final(self).course@ == old(self).course@
                &&& final(self).hole == old(self).hole
                &&& final(self).angle == old(self).angle
                &&& final(self).selected_club_idx == old(self).selected_club_idx
                &&& final(self).selected_shot == old(self).selected_shot
                &&& !final(self).hole_done
                &&& *final(self) == (Game {
                    golfer_anchor: final(self).golfer_anchor,
                    swing_active: final(self).swing_active,
                    swing_frame: final(self).swing_frame,
                    swing_timer: final(self).swing_timer,
                    strokes: final(self).strokes,
                    trail: final(self).trail,
                    wind: final(self).wind,
                    velocity: final(self).velocity,
                    rolling: final(self).rolling,
                    roll_time: final(self).roll_time,
                    airborne: final(self).airborne,
                    ..*old(self)
                })
                &&& exists|len: int| {
                    let d = crate::physics::unit_of(launch_dir, len);
                    &&& #[trigger] is_isqrt(len, norm_sq(launch_dir.x as int, launch_dir.y as int))
                    &&& c.putter ==> {
                        &&& final(self).rolling
                        &&& final(self).airborne.is_none()
                        &&& final(self).roll_time == 0
                        &&& exists|hl: int| #[trigger] is_isqrt(hl, dist_sq(old(self).ball, old(self).hole))
                            && final(self).velocity == putt_velocity(
                                d,
                                putt_speed(putt_target(lie, c.rollout_yd * 1000, hl), lie_of(lie).1),
                                wind,
                            )
                    }
                    &&& !c.putter ==> {
                        &&& !final(self).rolling
                        &&& final(self).airborne == Some(flight_of(old(self).ball, d, c, old(self).selected_shot, lie, wind))
                    }
                }
            },
    {
        if !self.can_shoot() {
            return;
        }
        let ghost g0 = *self;
        self.golfer_anchor = self.ball;
        self.swing_active = true;
        self.swing_frame = 0;
        self.swing_timer = 0;
        self.strokes = if self.strokes < u32::MAX { self.strokes + 1 } else { self.strokes };
        self.trail.clear();
        let w = self.wind + wind_change;
        self.wind = if w < -500 { -500 } else if w > 500 { 500 } else { w };

        let lie = self.current_surface();
        let (lc, lr, _) = lie_modifiers(lie);
        let c = self.current_club();
        proof {
            lemma_club_bounds(self.selected_club_idx as int);
        }
        let d = launch_dir.normalized();
        let ghost len = choose|len: int| is_isqrt(len, norm_sq(launch_dir.x as int, launch_dir.y as int)) && d == crate::physics::unit_of(launch_dir, len);

        if c.putter {
            let target = self.putter_rollout_target_yd(c);
            assert(target * lr <= 3_200_000) by (nonlinear_arith)
                requires target <= 32_000, lr <= 100;
            let tiles: u64 = target * lr / 500;
            let v0: u64 = tiles * 22 / 10;
            let v: i64 = if v0 < 850 { 850 } else { v0 as i64 };
            assert(v <= 14080);
            let wx = crate::physics::scale_toward_zero(self.wind, 35, 1000);
            self.velocity = Vec2 { x: ratio_tz(d.x, v, UNIT) + wx, y: ratio_tz(d.y, v, UNIT) };
            self.rolling = true;
            self.roll_time = 0;
            assert(v == putt_speed(target as int, lie_of(lie).1));
            assert(self.velocity == putt_velocity(d, v as int, self.wind as int));
            assert(bounded(self.velocity, VEL_BOUND as int));
            assert(self.wf());
            return;
        }
        let s = self.selected_shot;
        assert(c.carry_yd * s.carry_pct_of() <= 25500) by (nonlinear_arith)
            requires c.carry_yd <= 255, s.carry_pct_of() <= 100;
        assert(c.carry_yd * s.carry_pct_of() * lc <= 2550000) by (nonlinear_arith)
            requires c.carry_yd * s.carry_pct_of() <= 25500, lc <= 100;
        assert(c.rollout_yd * s.roll_pct_of() <= 3200) by (nonlinear_arith)
            requires c.rollout_yd <= 32, s.roll_pct_of() <= 100;
        assert(c.rollout_yd * s.roll_pct_of() * lr <= 320000) by (nonlinear_arith)
            requires c.rollout_yd * s.roll_pct_of() <= 3200, lr <= 100;
        let carry: i64 = (c.carry_yd * s.carry_mult() * lc / 50) as i64;
        let roll: i64 = (c.rollout_yd * s.roll_mult() * lr / 50) as i64;
        let push = wind_push(self.wind, c.carry_yd as i64);
        let landing = Vec2 {
            x: self.ball.x + ratio_tz(d.x, carry, UNIT) + push,
            y: self.ball.y + ratio_tz(d.y, carry, UNIT),
        };
        assert(c.apex_centi * s.arc_pct_of() <= 41000) by (nonlinear_arith)
            requires c.apex_centi <= 410, s.arc_pct_of() <= 100;
        assert(c.air_time_ms * s.arc_pct_of() * 10 <= 1_000_000) by (nonlinear_arith)
            requires c.air_time_ms <= 1000, s.arc_pct_of() <= 100;
        assert(c.air_time_ms * s.arc_pct_of() * 10 >= 180_000) by (nonlinear_arith)
            requires c.air_time_ms >= 450, s.arc_pct_of() >= 40;
        self.airborne = Some(AirState {
            start: self.ball,
            landing,
            elapsed: 0,
            duration: c.air_time_ms * s.arc_mult() * 10,
            apex: c.apex_centi * s.arc_mult() / 100,
            rollout_speed: 2 * roll,
        });
        assert(self.airborne == Some(flight_of(g0.ball, d, c, s, lie, self.wind as int)));
        assert(self.airborne.unwrap().wf());
        assert(self.trail.wf());
        assert(self.wf());
    }
}

/// How far the wind pushes a flight of a club carrying `carry_yd` yards,
/// in milli-tiles: 8% of the carry in tiles per whole unit of wind.
fn wind_push(wind: i64, carry_yd: i64) -> (r: i64)
    requires
        -500 <= wind <= 500,
        0 <= carry_yd <= 255,
    ensures
        r == scale_tz(wind as int, carry_yd * 8, 500),
        -2040 <= r <= 2040,
{
    let w: i64 = if wind >= 0 { wind } else { -wind };
    assert(w * (carry_yd * 8) <= 500 * 2040) by (nonlinear_arith)
        requires 0 <= w <= 500, 0 <= carry_yd <= 255;
    assert(w * (carry_yd * 8) >= 0) by (nonlinear_arith)
        requires 0 <= w, 0 <= carry_yd;
    let m = w * (carry_yd * 8) / 500;
    if wind >= 0 { m } else { -m }
}

} // verus!
