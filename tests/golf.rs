use fairway::catalog::{club, lie_modifiers, CLUB_COUNT, PUTTER_IDX};
use fairway::game::{PI_URAD, SUBSTEP_US, TAU_URAD};
use fairway::physics::{
    drag_factor, lip_out_check, ratio_tz, roll_end_check, scale_toward_zero, sink_check, UNIT,
};
use fairway::planner::plan_shot;
use fairway::trail::{Trail, TRAIL_LEN};
use fairway::{terrain_char, terrain_surface, wrap_angle_rad, Course, Game, ShotType, Surface, Vec2};

fn sway_row() -> Vec<i32> {
    (0..72)
        .map(|x| ((x as f32 / 11.0).sin() * 2.5 * 1000.0).round() as i32)
        .collect()
}

fn fresh_game() -> Game {
    Game::new(Course::from_sway(sway_row()).expect("one sway per column"))
}

fn unit_dir(angle: f64) -> Vec2 {
    Vec2::new(
        (angle.cos() * UNIT as f64).round() as i64,
        (angle.sin() * UNIT as f64).round() as i64,
    )
}

#[test]
fn terrain_regions() {
    assert_eq!(terrain_surface(64, 7, 0), Surface::Green);
    assert_eq!(terrain_surface(62, 7, 0), Surface::Green);
    assert_eq!(terrain_surface(27, 8, 0), Surface::Bunker);
    assert_eq!(terrain_surface(48, 18, 0), Surface::Bunker);
    assert_eq!(terrain_surface(10, 12, 0), Surface::Fairway);
    assert_eq!(terrain_surface(10, 2, 0), Surface::Rough);
    // The sway moves the fairway: row 16 at column 10 is fairway only when
    // the centre line is pushed down.
    assert_eq!(terrain_surface(10, 16, 0), Surface::Rough);
    assert_eq!(terrain_surface(10, 16, 2000), Surface::Fairway);
}

#[test]
fn terrain_green_wins_over_everything() {
    // Centre of the cup with a sway that would also make it fairway.
    assert_eq!(terrain_surface(64, 7, -5000), Surface::Green);
}

#[test]
fn terrain_far_outside_is_rough() {
    assert_eq!(terrain_surface(-1000, 500, 0), Surface::Rough);
    assert_eq!(terrain_surface(i32::MAX, i32::MIN, i32::MAX), Surface::Rough);
}

#[test]
fn terrain_glyphs() {
    assert_eq!(terrain_char(64, 7, 0), '▪');
    assert_eq!(terrain_char(64, 8, 0), '■');
    assert_eq!(terrain_char(10, 12, 0), '■');
    assert_eq!(terrain_char(10, 2, 0), '▪');
    assert_eq!(terrain_char(10, 3, 0), '·');
    assert_eq!(terrain_char(27, 8, 0), '□');
    assert_eq!(terrain_char(27, 9, 0), '▫');
}

#[test]
fn names() {
    assert_eq!(Surface::Green.name(), "Green");
    assert_eq!(Surface::Fairway.name(), "Fairway");
    assert_eq!(Surface::Rough.name(), "Rough");
    assert_eq!(Surface::Bunker.name(), "Bunker");
    assert_eq!(ShotType::Full.name(), "Full");
    assert_eq!(ShotType::ThreeQuarter.name(), "3/4");
    assert_eq!(ShotType::Half.name(), "Half");
    assert_eq!(ShotType::Pitch.name(), "Pitch");
    assert_eq!(ShotType::Chip.name(), "Chip");
}

#[test]
fn multipliers_and_drag() {
    assert_eq!(ShotType::Half.carry_mult(), 50);
    assert_eq!(ShotType::Pitch.roll_mult(), 32);
    assert_eq!(ShotType::Chip.arc_mult(), 40);
    assert_eq!(Surface::Bunker.drag_strength(), 900);
    assert_eq!(Surface::Green.drag_strength(), 235);
    assert_eq!(lie_modifiers(Surface::Rough), (82, 72, 28000));
}

#[test]
fn shot_cycle_wraps() {
    assert_eq!(ShotType::Full.next(), ShotType::ThreeQuarter);
    assert_eq!(ShotType::Pitch.next(), ShotType::Chip);
    assert_eq!(ShotType::Chip.next(), ShotType::Full);
}

#[test]
fn club_catalog() {
    let d = club(0);
    assert_eq!(d.name, "Driver");
    assert_eq!(d.carry_yd, 255);
    assert_eq!(d.rollout_yd, 14);
    assert_eq!(d.air_time_ms, 1000);
    let p = club(PUTTER_IDX);
    assert_eq!(p.name, "Putter");
    assert!(p.putter);
    assert_eq!(p.carry_yd, 0);
    for i in 1..CLUB_COUNT {
        assert!(club(i).carry_yd <= club(i - 1).carry_yd);
    }
}

#[test]
fn wrap_angle_examples() {
    assert_eq!(wrap_angle_rad(0), 0);
    assert_eq!(wrap_angle_rad(PI_URAD), PI_URAD);
    assert_eq!(wrap_angle_rad(-PI_URAD), PI_URAD);
    assert_eq!(wrap_angle_rad(4_000_000), 4_000_000 - TAU_URAD);
    assert_eq!(wrap_angle_rad(-4_000_000), -4_000_000 + TAU_URAD);
    assert_eq!(wrap_angle_rad(3 * TAU_URAD + 5), 5);
}

#[test]
fn wrap_angle_stays_in_range() {
    for a in [-20_000_000_000, -20_000_000, -PI_URAD - 1, 1, PI_URAD + 1, 99_999_999, 20_000_000_000] {
        let r = wrap_angle_rad(a);
        assert!(-PI_URAD < r && r <= PI_URAD);
        assert_eq!((r as i128 - a as i128).rem_euclid(TAU_URAD as i128), 0);
    }
}

#[test]
fn trail_keeps_latest_eighteen() {
    let mut t: Trail<i32> = Trail::new();
    for i in 0..5 {
        t.push(i);
    }
    assert_eq!(t.as_slice(), &[0, 1, 2, 3, 4]);
    for i in 5..25 {
        t.push(i);
        assert!(t.len() <= TRAIL_LEN);
    }
    assert_eq!(t.len(), 18);
    let expected: Vec<i32> = (7..25).collect();
    assert_eq!(t.as_slice(), expected.as_slice());
    t.clear();
    assert_eq!(t.len(), 0);
}

#[test]
fn planner_green_is_always_putter() {
    for d in [0u64, 10_000, 700_001, 5_000_000] {
        assert_eq!(plan_shot(d, Surface::Green), (PUTTER_IDX, ShotType::Full));
    }
}

#[test]
fn planner_no_putter_beyond_seventy_yards() {
    let (i, _) = plan_shot(700_001, Surface::Fairway);
    assert_ne!(i, PUTTER_IDX);
    assert_eq!(plan_shot(700_001, Surface::Fairway), (10, ShotType::Half));
    let (i, _) = plan_shot(700_001, Surface::Rough);
    assert_ne!(i, PUTTER_IDX);
}

#[test]
fn planner_putter_within_reach() {
    assert_eq!(plan_shot(320_000, Surface::Fairway), (PUTTER_IDX, ShotType::Full));
}

#[test]
fn planner_prefers_reaching_over_short() {
    // The 3 wood (255 yd) and the driver (269 yd) both miss 262 yd by 7 yd;
    // the short one is penalised.
    assert_eq!(plan_shot(2_620_000, Surface::Fairway), (0, ShotType::Full));
    // Exact match.
    assert_eq!(plan_shot(2_690_000, Surface::Fairway), (0, ShotType::Full));
}

#[test]
fn planner_lies_scale_distance() {
    assert_eq!(plan_shot(1_000_000, Surface::Rough), (11, ShotType::Full));
    assert_eq!(plan_shot(500_000, Surface::Bunker), (14, ShotType::Full));
    assert_eq!(plan_shot(0, Surface::Fairway), (14, ShotType::Chip));
}

#[test]
fn sink_rules() {
    // Hard radius on the green is 0.56 tiles.
    assert!(sink_check(559 * 559, 100_000_000, true));
    assert!(!sink_check(560 * 560, 100_000_000, true));
    // Soft radius 1.0 with speed under 1.45.
    assert!(sink_check(600 * 600, 1000 * 1000, true));
    assert!(!sink_check(600 * 600, 1450 * 1450, true));
    // Off the green the cup is smaller.
    assert!(sink_check(600 * 600, 1000 * 1000, false));
    assert!(!sink_check(600 * 600, 1200 * 1200, false));
    assert!(!sink_check(900 * 900, 1000 * 1000, false));
    assert!(sink_check(419 * 419, 100_000_000, false));
    assert!(lip_out_check(1100 * 1100, 1500 * 1500, true));
    assert!(!lip_out_check(1120 * 1120, 1500 * 1500, true));
    assert!(!lip_out_check(1100 * 1100, 1400 * 1400, true));
}

#[test]
fn roll_end_rules() {
    assert!(roll_end_check(119 * 119, 0));
    assert!(!roll_end_check(120 * 120, 0));
    assert!(!roll_end_check(5000 * 5000, 12_000_000));
    assert!(roll_end_check(5000 * 5000, 12_000_001));
}

#[test]
fn drag_decays_geometrically() {
    let keep = drag_factor(235, 16_000);
    assert_eq!(keep, 1_000_000 - 37_600);
    assert_eq!(drag_factor(900, 2_000_000), 0);
    let mut v: i64 = 10_000;
    let mut steps = 0;
    while v >= 120 {
        let next = scale_toward_zero(v, keep, UNIT);
        assert!(next < v);
        v = next;
        steps += 1;
        assert!(steps < 1000);
    }
    assert!(steps > 10);
    assert_eq!(scale_toward_zero(-1000, 500_000, UNIT), -500);
}

#[test]
fn ratio_rounds_toward_zero() {
    assert_eq!(ratio_tz(3, 10, 4), 7);
    assert_eq!(ratio_tz(-3, 10, 4), -7);
}

#[test]
fn vector_length_uses_integer_root() {
    assert_eq!(Vec2::new(3000, 4000).length(), 5000);
    assert_eq!(Vec2::new(1, 1).length(), 1);
    assert_eq!(Vec2::new(0, 7).normalized(), Vec2::new(0, 1_000_000));
    assert_eq!(Vec2::new(0, 0).normalized(), Vec2::new(0, 0));
}

#[test]
fn course_needs_one_sway_per_column() {
    assert!(Course::from_sway(vec![0; 71]).is_none());
    assert!(Course::from_sway(vec![0; 72]).is_some());
}

#[test]
fn new_game_state() {
    let g = fresh_game();
    assert_eq!(g.ball, Vec2::new(8000, 12000));
    assert_eq!(g.hole, Vec2::new(64000, 7000));
    assert!(g.can_shoot());
    assert_eq!(g.current_surface(), Surface::Fairway);
    assert!(!g.on_green());
    assert_eq!(g.aim_step(), 80000);
    assert_eq!(g.par, 4);
    assert_eq!(g.strokes, 0);
    assert_eq!(g.current_club().name, "Driver");
    assert_eq!(g.selected_shot_distance_yd(), 269_000);
    // sqrt(56^2 + 5^2) = 56.22 tiles, rounded down in milli-tiles, times 5.
    assert_eq!(g.distance_to_hole_yd(), 56222 * 5);
}

#[test]
fn cycle_club_wraps_and_goes_manual() {
    let mut g = fresh_game();
    g.selected_shot = ShotType::Half;
    g.cycle_club(-1);
    assert_eq!(g.selected_club_idx, PUTTER_IDX);
    assert_eq!(g.selected_shot, ShotType::Full);
    assert!(!g.auto_caddie);
    g.cycle_club(1);
    assert_eq!(g.selected_club_idx, 0);
    g.cycle_club(35);
    assert_eq!(g.selected_club_idx, 3);
}

#[test]
fn cycle_shot_type_skips_putter() {
    let mut g = fresh_game();
    g.cycle_shot_type();
    assert_eq!(g.selected_shot, ShotType::ThreeQuarter);
    assert!(!g.auto_caddie);
    g.selected_club_idx = PUTTER_IDX;
    g.selected_shot = ShotType::Full;
    g.cycle_shot_type();
    assert_eq!(g.selected_shot, ShotType::Full);
}

#[test]
fn toggle_caddie_selects_recommendation() {
    let mut g = fresh_game();
    g.auto_caddie = false;
    g.selected_club_idx = 9;
    g.toggle_auto_caddie();
    assert!(g.auto_caddie);
    // 281 yards from the tee: the driver at full is the nearest.
    assert_eq!((g.selected_club_idx, g.selected_shot), (0, ShotType::Full));
    g.toggle_auto_caddie();
    assert!(!g.auto_caddie);
}

#[test]
fn driver_scenario_flight_and_landing() {
    let mut g = fresh_game();
    let angle = (-5.0f64).atan2(56.0);
    g.angle = (angle * 1e6).round() as i64;
    let dir = unit_dir(angle);
    g.hit_ball(0, dir);
    assert_eq!(g.strokes, 1);
    assert!(g.swing_active);
    let air = g.airborne.expect("driver leaves the ground");
    assert_eq!(air.duration, 1_000_000);
    assert_eq!(air.start, Vec2::new(8000, 12000));
    let expect_x = 8000.0 + 51000.0 * angle.cos();
    let expect_y = 12000.0 + 51000.0 * angle.sin();
    assert!((air.landing.x as f64 - expect_x).abs() <= 2.0);
    assert!((air.landing.y as f64 - expect_y).abs() <= 2.0);
    assert_eq!(air.rollout_speed, 2 * 2800);
    assert!(!g.can_shoot());
    g.update(500_000);
    let mid = g.airborne.expect("still flying");
    assert_eq!(mid.progress(), 500_000);
    assert_eq!(mid.arc_height(), 410);
    assert_eq!(g.ball, Vec2::new(8000, 12000));
    g.update(499_999);
    assert!(g.airborne.is_some());
    let last = g.airborne.unwrap();
    let at_end = fairway::AirState { elapsed: 1_000_000, ..last };
    assert_eq!(at_end.ground_pos(), air.landing);
    g.update(1);
    assert!(g.airborne.is_none());
    assert!(g.rolling);
    // One microsecond of rolling leaves the ball at the landing point.
    assert_eq!(g.ball, air.landing);
}

#[test]
fn soft_sink_captures_slow_ball_on_green() {
    let mut g = fresh_game();
    g.ball = Vec2::new(64600, 7000);
    g.velocity = Vec2::new(0, 1000);
    g.rolling = true;
    assert!(g.on_green());
    g.update(SUBSTEP_US);
    assert!(g.hole_done);
    assert_eq!(g.ball, g.hole);
    assert_eq!(g.velocity, Vec2::new(0, 0));
    assert!(!g.rolling);
    g.update(1_000_000);
    assert!(g.hole_done);
    assert_eq!(g.ball, g.hole);
    assert_eq!(g.velocity, Vec2::new(0, 0));
    assert!(!g.can_shoot());
}

#[test]
fn hard_sink_captures_fast_ball() {
    let mut g = fresh_game();
    g.ball = Vec2::new(63700, 7000);
    g.velocity = Vec2::new(5000, 0);
    g.rolling = true;
    assert!(g.roll_substep(SUBSTEP_US));
    assert!(g.hole_done);
    assert_eq!(g.ball, Vec2::new(64000, 7000));
}

#[test]
fn fast_ball_lips_out() {
    let mut g = fresh_game();
    g.ball = Vec2::new(62900, 7000);
    g.velocity = Vec2::new(3000, 2000);
    g.rolling = true;
    let stop = g.roll_substep(SUBSTEP_US);
    assert!(!stop);
    assert!(!g.hole_done);
    assert_eq!(g.ball, Vec2::new(62948, 7032));
    // 20% of the velocity, reversed, plus 0.45 tiles/s toward the cup.
    assert_eq!(g.velocity, Vec2::new(-577 + 450, -384 - 13));
    assert_eq!(g.trail.len(), 1);
}

#[test]
fn lip_out_pulls_toward_cup() {
    let mut g = fresh_game();
    g.ball = Vec2::new(64700, 7000);
    g.velocity = Vec2::new(0, 2000);
    g.rolling = true;
    assert!(g.on_green());
    assert!(!g.roll_substep(SUBSTEP_US));
    assert!(!g.hole_done);
    // The cup lies in the -x direction from the ball.
    assert_eq!(g.velocity, Vec2::new(-450, -384 - 20));
}

#[test]
fn very_long_tick_ends_roll() {
    let mut g = fresh_game();
    g.ball = Vec2::new(20000, 12000);
    g.velocity = Vec2::new(5000, 0);
    g.rolling = true;
    g.auto_caddie = false;
    g.update(u64::MAX);
    assert!(!g.rolling);
    assert!(!g.hole_done);
    assert_eq!(g.velocity, Vec2::new(0, 0));
    assert_eq!(g.roll_time, 0);
    assert_eq!(g.trail.len(), 1);
}

#[test]
fn long_tick_lands_and_stops() {
    let mut g = fresh_game();
    g.hit_ball(0, Vec2::new(1_000_000, 0));
    g.update(600_000_000);
    assert!(g.airborne.is_none());
    assert!(!g.rolling);
    // The swing animation advances one frame per tick, however long.
    assert_eq!(g.swing_frame, 1);
    assert!(g.can_shoot());
}

#[test]
fn roll_time_cap_stops_ball() {
    let mut g = fresh_game();
    g.ball = Vec2::new(20000, 12000);
    g.velocity = Vec2::new(5000, 0);
    g.rolling = true;
    g.roll_time = 12_000_000;
    g.update(SUBSTEP_US);
    assert!(!g.rolling);
    assert!(!g.hole_done);
    assert_eq!(g.velocity, Vec2::new(0, 0));
    assert_eq!(g.roll_time, 0);
    assert!(g.can_shoot());
}

#[test]
fn slow_ball_stops() {
    let mut g = fresh_game();
    g.ball = Vec2::new(20000, 12000);
    g.velocity = Vec2::new(100, 0);
    g.rolling = true;
    g.auto_caddie = false;
    g.update(SUBSTEP_US);
    assert!(!g.rolling);
    assert_eq!(g.velocity, Vec2::new(0, 0));
    assert_eq!(g.ball, Vec2::new(20001, 12000));
}

#[test]
fn ball_bounces_off_the_edge() {
    let mut g = fresh_game();
    g.ball = Vec2::new(1010, 12000);
    g.velocity = Vec2::new(-2000, 0);
    g.rolling = true;
    assert!(!g.roll_substep(SUBSTEP_US));
    assert_eq!(g.ball.x, 1000);
    assert!(g.velocity.x > 0);
}

#[test]
fn putt_on_green_rolls_at_once() {
    let mut g = fresh_game();
    g.ball = Vec2::new(62000, 7000);
    g.auto_caddie = false;
    g.selected_club_idx = PUTTER_IDX;
    assert!(g.on_green());
    assert_eq!(g.aim_step(), 36000);
    assert_eq!(g.shot_dispersion(), 2500);
    // 10 yards to the cup: a 13.5 yard putt, 2.7 tiles, at 5.94 tiles/s.
    assert_eq!(g.selected_shot_distance_yd(), 13_500);
    g.hit_ball(0, Vec2::new(1_000_000, 0));
    assert!(g.rolling);
    assert!(g.airborne.is_none());
    assert_eq!(g.velocity, Vec2::new(5940, 0));
}

#[test]
fn strike_moves_wind_within_bounds() {
    let mut g = fresh_game();
    g.wind = 450;
    g.hit_ball(139, Vec2::new(1_000_000, 0));
    assert_eq!(g.wind, 500);
    assert_eq!(g.trail.len(), 0);
    // No second strike while the ball is in the air.
    g.hit_ball(-139, Vec2::new(1_000_000, 0));
    assert_eq!(g.strokes, 1);
    assert_eq!(g.wind, 500);
}

#[test]
fn random_draws_stay_in_range() {
    let g = fresh_game();
    let d = g.shot_dispersion() as i64;
    assert_eq!(d, 35000 + 4000);
    let mut winds = std::collections::BTreeSet::new();
    let mut angles = std::collections::BTreeSet::new();
    for _ in 0..200 {
        let w = Game::draw_wind_change();
        assert!((-140..140).contains(&w));
        winds.insert(w);
        let a = g.draw_launch_angle();
        assert!(-d <= a && a < d);
        angles.insert(a);
    }
    assert!(winds.len() > 1);
    assert!(angles.len() > 1);
}

#[test]
fn launch_angle_wraps() {
    let mut g = fresh_game();
    g.angle = PI_URAD;
    assert_eq!(g.launch_angle(10), PI_URAD + 10 - TAU_URAD);
}

#[test]
fn swing_animation_runs_six_frames() {
    let mut g = fresh_game();
    g.hit_ball(0, Vec2::new(1_000_000, 0));
    assert!(g.swing_active);
    for frame in 1..6 {
        g.update(70_000);
        assert_eq!(g.swing_frame, frame);
    }
    g.update(70_000);
    assert!(!g.swing_active);
    assert_eq!(g.swing_frame, 0);
}

#[test]
fn reset_restores_fresh_hole() {
    let mut g = fresh_game();
    g.hit_ball(0, Vec2::new(1_000_000, 0));
    g.reset();
    assert_eq!(g.strokes, 0);
    assert!(g.can_shoot());
    assert_eq!(g.ball, Vec2::new(8000, 12000));
}
