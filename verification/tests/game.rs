use platformer::fixed::ONE;
use platformer::input::{control_of, same_text};
use platformer::movement::NEVER_GROUNDED;
use platformer::{
    vec2, vec3, Enemy, GameState, InputEvent, Platform, Player, Trail, UniformData, Vec2, Vertex,
};

fn floor() -> Platform {
    Platform { centre_pos: vec2(0, -800_000), size: vec2(2 * ONE, 400_000) }
}

fn enemy_at(centre_pos: Vec2, start_time: i64) -> Enemy {
    Enemy { centre_pos, vel: vec2(0, 0), grounded: NEVER_GROUNDED, start_time }
}

fn run(game: &mut GameState, uniforms: &mut UniformData, ticks: usize) {
    for _ in 0..ticks {
        *uniforms = uniforms.add_time(ONE);
        game.tick(uniforms);
    }
}

fn key_down(k: &str) -> InputEvent {
    InputEvent::KeyDown(String::from(k))
}

fn key_up(k: &str) -> InputEvent {
    InputEvent::KeyUp(String::from(k))
}

#[test]
fn new_game_is_empty() {
    let g = GameState::new();
    assert!(g.platforms.is_empty());
    assert!(g.enemies.is_empty());
    assert_eq!(g.player.hp, 30 * ONE);
    assert_eq!(g.player.centre_pos, vec2(0, 0));
    assert!(g.player.trail.is_empty());
}

#[test]
fn clock_starts_at_zero_and_is_advanced_by_the_caller() {
    let u = UniformData::new();
    assert_eq!(u, UniformData { time: 0, cam_pos: vec2(0, 0) });
    assert_eq!(UniformData::default(), u);
    let v = u.add_time(ONE).add_time(ONE);
    assert_eq!(v.time, 2 * ONE);
    assert_eq!(v.cam_pos, vec2(0, 0));
    assert_eq!(UniformData { time: i64::MAX, cam_pos: vec2(1, 2) }.add_time(ONE).time, i64::MAX);
    let mut w = v;
    w.set_cam_pos(vec2(5, 6));
    assert_eq!(w, UniformData { time: 2 * ONE, cam_pos: vec2(5, 6) });
    let mut g = GameState::new();
    g.tick(&mut w);
    assert_eq!(w.time, 2 * ONE);
}

#[test]
fn camera_follows_by_a_moving_average() {
    let mut u = UniformData { time: 0, cam_pos: vec2(ONE, -ONE) };
    u.follow_player(vec2(12 * ONE, -ONE));
    assert_eq!(u.cam_pos, vec2(2 * ONE, -ONE));
    u.follow_player(vec2(2 * ONE, 10 * ONE));
    assert_eq!(u.cam_pos, vec2(2 * ONE, 0));
    u.follow_player(vec2(0, 1));
    assert_eq!(u.cam_pos, vec2(1_818_181, 0));
}

#[test]
fn player_falls_onto_the_platform_and_rests() {
    let mut g = GameState::new();
    g.platforms.push(floor());
    let mut u = UniformData::new();

    run(&mut g, &mut u, 1);
    assert_eq!(g.player.centre_pos, vec2(0, -4_000));
    assert_eq!(g.player.vel, vec2(0, -3_968));
    run(&mut g, &mut u, 2);
    assert_eq!(g.player.centre_pos, vec2(0, -23_811));
    assert_eq!(g.player.vel, vec2(0, -11_568));
    assert_eq!(g.player.grounded, NEVER_GROUNDED);

    run(&mut g, &mut u, 14);
    assert_eq!(u.time, 17 * ONE);
    assert_eq!(g.player.centre_pos, vec2(0, -471_478));
    assert_eq!(g.player.vel, vec2(0, -39_010));
    assert_eq!(g.player.grounded, NEVER_GROUNDED);

    run(&mut g, &mut u, 1);
    assert_eq!(g.player.centre_pos, vec2(0, -500_000));
    assert_eq!(g.player.vel, vec2(0, 0));
    assert_eq!(g.player.grounded, 18 * ONE);

    run(&mut g, &mut u, 482);
    assert_eq!(u.time, 500 * ONE);
    assert_eq!(g.player.centre_pos, vec2(0, -500_000));
    assert_eq!(g.player.vel, vec2(0, 0));
    assert_eq!(g.player.grounded, 500 * ONE);
    assert_eq!(g.player.hp, 30 * ONE + 500 * 50_000);
    assert_eq!(u.cam_pos, vec2(0, -499_990));
    // the lower sample point rests on the upper face of the platform
    assert_eq!(g.player.centre_pos.y - 100_000, -800_000 - 200_000 + 400_000);
}

#[test]
fn trail_holds_three_hundred_ticks() {
    let mut g = GameState::new();
    g.platforms.push(floor());
    let mut u = UniformData::new();
    run(&mut g, &mut u, 301);
    assert_eq!(g.player.trail.len(), 301);
    assert_eq!(g.player.trail[300].time, ONE);
    run(&mut g, &mut u, 1);
    assert_eq!(g.player.trail.len(), 301);
    assert_eq!(g.player.trail[300].time, 2 * ONE);
    run(&mut g, &mut u, 198);
    assert_eq!(g.player.trail.len(), 301);
    assert_eq!(g.player.trail[0].time, 500 * ONE);
    assert_eq!(g.player.trail[300].time, 200 * ONE);
    for (i, s) in g.player.trail.iter().enumerate() {
        assert_eq!(s.time, (500 - i as i64) * ONE);
        assert_eq!(s.delta, ONE);
        assert!(u.time - s.time <= 300 * ONE);
    }
}

#[test]
fn running_and_jumping_from_the_platform() {
    let mut g = GameState::new();
    g.platforms.push(floor());
    let mut u = UniformData::new();
    run(&mut g, &mut u, 30);
    assert_eq!(g.player.centre_pos, vec2(0, -500_000));
    assert_eq!(u.cam_pos, vec2(0, -415_653));

    g.input_event(key_down("d"));
    g.input_event(key_down("w"));
    run(&mut g, &mut u, 1);
    assert_eq!(g.player.centre_pos, vec2(5_000, -374_000));
    assert_eq!(g.player.vel, vec2(4_651, 100_638));
    assert_eq!(g.player.grounded, -5 * ONE);
    assert_eq!(g.player.hp, 31_550_000);
    run(&mut g, &mut u, 1);
    assert_eq!(g.player.centre_pos, vec2(12_151, -277_362));
    assert_eq!(g.player.vel, vec2(6_458, 80_985));
    assert_eq!(g.player.grounded, -5 * ONE);
    run(&mut g, &mut u, 3);
    assert_eq!(g.player.centre_pos, vec2(42_998, -85_941));
    assert_eq!(g.player.vel, vec2(9_803, 46_874));
}

#[test]
fn running_on_the_platform() {
    let mut g = GameState::new();
    g.platforms.push(floor());
    let mut u = UniformData::new();
    run(&mut g, &mut u, 30);
    g.input_event(key_down("ArrowRight"));
    run(&mut g, &mut u, 1);
    assert_eq!(g.player.centre_pos, vec2(5_000, -500_000));
    assert_eq!(g.player.vel, vec2(2_870, 0));
    run(&mut g, &mut u, 2);
    assert_eq!(g.player.centre_pos, vec2(23_264, -500_000));
    assert_eq!(g.player.vel, vec2(7_455, 0));
    assert_eq!(g.player.grounded, 33 * ONE);
}

#[test]
fn death_gives_a_fresh_player() {
    let mut g = GameState::new();
    g.player.hp = -60_000;
    g.player.centre_pos = vec2(5, 7);
    g.player.vel = vec2(3, 4);
    g.player.movement = [true, false, true, false];
    g.player.grounded = 6 * ONE;
    g.player.trail.push(Trail::new(vec2(0, 0), vec2(5, 7), 6 * ONE, 5 * ONE));
    let mut u = UniformData { time: 7 * ONE, cam_pos: vec2(0, 0) };
    g.tick(&mut u);
    assert_eq!(g.player.hp, 30 * ONE);
    assert_eq!(g.player.vel, vec2(0, 0));
    assert_eq!(g.player.centre_pos, vec2(0, 0));
    assert!(g.player.trail.is_empty());
    assert_eq!(g.player.movement, [false; 4]);
    assert_eq!(g.player.grounded, NEVER_GROUNDED);
    assert_eq!(u.time, 7 * ONE);
}

#[test]
fn hit_points_of_zero_are_not_death() {
    let mut g = GameState::new();
    g.player.hp = -50_000;
    let mut u = UniformData { time: 7 * ONE, cam_pos: vec2(0, 0) };
    g.tick(&mut u);
    assert_eq!(g.player.hp, 0);
    assert_eq!(g.player.centre_pos, vec2(0, -4_000));
    assert_eq!(g.player.trail.len(), 1);
}

#[test]
fn enemies_kill_a_weak_player() {
    let mut g = GameState::new();
    g.player.hp = 900_000;
    g.enemies.push(enemy_at(vec2(20_000, 0), 0));
    let mut u = UniformData { time: 7 * ONE, cam_pos: vec2(0, 0) };
    g.tick(&mut u);
    assert_eq!(g.player.hp, 30 * ONE);
    assert_eq!(g.player.centre_pos, vec2(0, 0));
    assert!(g.player.trail.is_empty());
}

#[test]
fn enemy_pursues_the_player() {
    let p = Player::new();
    let mut right_of = enemy_at(vec2(500_000, 0), 3 * ONE);
    let u = UniformData { time: 4 * ONE, cam_pos: vec2(0, 0) };
    right_of.do_movement(&p, &Vec::new(), &Vec::new(), &u);
    assert_eq!(right_of.centre_pos, vec2(498_750, -4_000));
    assert_eq!(right_of.vel, vec2(-1_226, -3_968));
    assert_eq!(right_of.grounded, NEVER_GROUNDED);
    assert_eq!(right_of.start_time, 3 * ONE);

    let mut left_of = enemy_at(vec2(-500_000, 0), 3 * ONE);
    left_of.grounded = 3_500_000;
    left_of.do_movement(&p, &Vec::new(), &Vec::new(), &u);
    assert_eq!(left_of.centre_pos, vec2(-497_500, -4_000));
    assert_eq!(left_of.vel, vec2(2_409, -3_968));
    assert_eq!(left_of.grounded, 3_500_000);
}

#[test]
fn enemy_is_faster_with_footing() {
    let mut e = Enemy::new(&UniformData { time: 3 * ONE, cam_pos: vec2(0, 0) });
    assert_eq!(e.start_time, 3 * ONE);
    assert_eq!(e.centre_pos, vec2(0, 0));
    assert_eq!(e.vel, vec2(0, 0));
    assert_eq!(e.grounded, NEVER_GROUNDED);
    assert_eq!(e.move_speed(4 * ONE), 1_250);
    e.grounded = 3 * ONE;
    assert_eq!(e.move_speed(4 * ONE), 2_500);
    assert_eq!(e.move_speed(4_099_999), 2_500);
    assert_eq!(e.move_speed(4_100_000), 1_250);
}

#[test]
fn enemies_move_in_order_and_meet_each_other() {
    let mut g = GameState::new();
    g.platforms.push(Platform { centre_pos: vec2(0, -800_000), size: vec2(4 * ONE, 400_000) });
    g.enemies.push(enemy_at(vec2(300_000, -520_000), 0));
    g.enemies.push(enemy_at(vec2(350_000, -520_000), 0));
    let mut u = UniformData::new();
    run(&mut g, &mut u, 1);
    assert_eq!(g.enemies[0].centre_pos, vec2(298_750, -524_000));
    assert_eq!(g.enemies[0].vel, vec2(-1_226, -3_968));
    assert_eq!(g.enemies[1].centre_pos, vec2(378_750, -524_000));
    assert_eq!(g.enemies[1].vel, vec2(-1_203, -3_968));
    run(&mut g, &mut u, 1);
    assert_eq!(g.enemies[0].centre_pos, vec2(296_274, -525_000));
    assert_eq!(g.enemies[0].vel, vec2(0, 0));
    assert_eq!(g.enemies[0].grounded, 2 * ONE);
    assert_eq!(g.enemies[1].centre_pos, vec2(376_297, -525_000));
    assert_eq!(g.enemies[1].grounded, 2 * ONE);
    run(&mut g, &mut u, 1);
    assert_eq!(g.enemies[0].centre_pos, vec2(293_774, -525_000));
    assert_eq!(g.enemies[0].vel, vec2(-496, 0));
    assert_eq!(g.enemies[1].centre_pos, vec2(373_797, -525_000));
    assert_eq!(g.enemies[1].vel, vec2(-496, 0));
    assert_eq!(g.enemies.len(), 2);
    assert_eq!(g.player.centre_pos, vec2(0, -23_811));
    assert_eq!(g.player.hp, 30_150_000);
}

#[test]
fn movement_keys_set_and_clear_the_controls() {
    let mut g = GameState::new();
    g.input_event(key_down("d"));
    assert_eq!(g.player.movement, [true, false, false, false]);
    g.input_event(key_down("a"));
    assert_eq!(g.player.movement, [true, true, false, false]);
    g.input_event(key_down("w"));
    assert_eq!(g.player.movement, [true, true, true, false]);
    g.input_event(key_up("d"));
    assert_eq!(g.player.movement, [false, true, true, false]);
    g.input_event(key_up("a"));
    assert_eq!(g.player.movement, [false, false, true, false]);
    g.input_event(key_up("w"));
    assert_eq!(g.player.movement, [false; 4]);
}

#[test]
fn arrow_keys_are_aliases() {
    let mut g = GameState::new();
    g.input_event(key_down("ArrowRight"));
    g.input_event(key_down("ArrowLeft"));
    g.input_event(key_down("ArrowUp"));
    assert_eq!(g.player.movement, [true, true, true, false]);
    g.input_event(key_up("d"));
    g.input_event(key_up("ArrowLeft"));
    g.input_event(key_up("w"));
    assert_eq!(g.player.movement, [false; 4]);
}

#[test]
fn other_events_are_ignored() {
    let mut g = GameState::new();
    g.input_event(key_down("d"));
    let others = vec![
        key_down("x"),
        key_up("s"),
        key_down("D"),
        key_down("arrowright"),
        key_down("ArrowDown"),
        key_down(""),
        key_down("dd"),
        key_up("ArrowRigh"),
        key_up("ü"),
        InputEvent::Wheel(ONE),
        InputEvent::Wheel(-ONE),
        InputEvent::LeftClick,
        InputEvent::RightClick,
    ];
    for e in others {
        g.input_event(e);
        assert_eq!(g.player.movement, [true, false, false, false]);
    }
    assert_eq!(g.player.hp, 30 * ONE);
    assert_eq!(g.player.centre_pos, vec2(0, 0));
}

#[test]
fn repeated_key_down_changes_nothing_more() {
    let mut g = GameState::new();
    g.input_event(key_down("w"));
    g.input_event(key_down("w"));
    g.input_event(key_down("ArrowUp"));
    assert_eq!(g.player.movement, [false, false, true, false]);
    g.input_event(key_up("w"));
    g.input_event(key_up("w"));
    assert_eq!(g.player.movement, [false; 4]);
}

#[test]
fn keys_are_told_apart_by_their_text() {
    assert_eq!(control_of("d"), Some(0));
    assert_eq!(control_of("ArrowRight"), Some(0));
    assert_eq!(control_of("a"), Some(1));
    assert_eq!(control_of("ArrowLeft"), Some(1));
    assert_eq!(control_of("w"), Some(2));
    assert_eq!(control_of("ArrowUp"), Some(2));
    assert_eq!(control_of("s"), None);
    assert_eq!(control_of(""), None);
    assert!(same_text("", ""));
    assert!(same_text("ArrowUp", "ArrowUp"));
    assert!(!same_text("ArrowUp", "ArrowUq"));
    assert!(!same_text("ArrowUp", "ArrowU"));
    assert!(same_text("grün", "grün"));
    assert!(!same_text("grün", "grun"));
}

fn vx(
    pos: [i64; 3],
    color: [i64; 4],
    shine_color: [i64; 4],
    start_time: [i64; 3],
    shine_rate: i64,
    shine_bias: [i64; 3],
) -> Vertex {
    Vertex { pos: vec3(pos[0], pos[1], pos[2]), color, shine_color, start_time, shine_rate, shine_bias }
}

fn white(pos: [i64; 3]) -> Vertex {
    vx(pos, [ONE, ONE, ONE, ONE], [0, 0, 0, 0], [0, 0, 0], 0, [0, 0, 0])
}

fn red(pos: [i64; 3], amount: i64) -> Vertex {
    vx(pos, [amount, 0, 0, ONE], [0, 0, 0, 0], [0, 0, 0], 0, [0, 0, 0])
}

fn grey(pos: [i64; 3], start_time: [i64; 3]) -> Vertex {
    vx(pos, [700_000, 700_000, 700_000, ONE], [ONE, ONE, ONE, 700_000], start_time, 50_000, [0, 0, 0])
}

fn purple(pos: [i64; 3], start: i64, shine_rate: i64) -> Vertex {
    vx(
        pos,
        [300_000, 100_000, 300_000, ONE],
        [ONE, 300_000, ONE, 500_000],
        [start, start, start],
        shine_rate,
        [0, 0, 0],
    )
}

fn two_triangles(c: [Vertex; 4]) -> Vec<Vertex> {
    vec![c[0], c[1], c[3], c[0], c[3], c[2]]
}

#[test]
fn render_lists_player_trail_platforms_enemies() {
    let mut g = GameState::new();
    g.platforms.push(floor());
    g.enemies.push(enemy_at(vec2(500_000, -525_000), 3 * ONE));
    let mut u = UniformData { time: 3 * ONE, cam_pos: vec2(0, 0) };
    run(&mut g, &mut u, 3);
    let drawn = g.render();
    assert_eq!(drawn.len(), 36);
    assert_eq!(
        drawn[0..6],
        two_triangles([
            white([-50_000, -123_811, 10_000]),
            white([-50_000, 76_189, 10_000]),
            white([50_000, -123_811, 10_000]),
            white([50_000, 76_189, 10_000]),
        ])
    );
    assert_eq!(
        drawn[6..12],
        two_triangles([
            grey([10_000, -10_968, 1_000], [-6_000_000, -3_500_000, -1_000_000]),
            grey([-10_000, -10_968, 1_000], [-5_500_000, -3_000_000, -500_000]),
            grey([10_000, -24_811, 1_000], [-5_000_000, -2_500_000, 500_000]),
            grey([-10_000, -24_811, 1_000], [-4_500_000, -2_000_000, 500_000]),
        ])
    );
    assert_eq!(drawn[12], grey([10_000, -3_000, 1_000], [-5_000_000, -2_500_000, 0]));
    assert_eq!(drawn[23], grey([10_000, -5_000, 1_000], [-3_000_000, -500_000, 2_500_000]));
    assert_eq!(
        drawn[24..30],
        two_triangles([
            red([-ONE, -ONE, 0], -2_500),
            red([-ONE, -600_000, 0], -2_500),
            red([ONE, -ONE, 0], -2_500),
            red([ONE, -600_000, 0], -2_500),
        ])
    );
    assert_eq!(
        drawn[30..36],
        two_triangles([
            purple([453_254, -600_000, 100], 3_000_000, 29_490),
            purple([453_254, -450_000, 100], 9_781_959, 29_490),
            purple([533_254, -600_000, 100], 16_563_918, 29_490),
            purple([533_254, -450_000, 100], 23_345_877, 29_490),
        ])
    );
    assert_eq!(g.player.centre_pos, vec2(0, -23_811));
    assert_eq!(g.enemies[0].centre_pos, vec2(493_254, -525_000));
}

#[test]
fn render_leaves_out_segments_without_length() {
    let mut g = GameState::new();
    g.platforms.push(floor());
    let mut u = UniformData::new();
    run(&mut g, &mut u, 30);
    assert_eq!(g.player.trail.len(), 30);
    let drawn = g.render();
    assert_eq!(drawn.len(), 6 * (1 + 18 + 1));
    assert_eq!(drawn[0], white([-50_000, -600_000, 10_000]));
    assert_eq!(
        drawn[6],
        grey([10_000, -470_478, 1_000], [-18_000_000, -15_500_000, -13_000_000])
    );
    assert_eq!(drawn[119], red([ONE, -ONE, 0], -25_000));
}

#[test]
fn render_of_an_empty_game_is_the_player() {
    let g = GameState::new();
    assert_eq!(
        g.render(),
        two_triangles([
            white([-50_000, -100_000, 10_000]),
            white([-50_000, 100_000, 10_000]),
            white([50_000, -100_000, 10_000]),
            white([50_000, 100_000, 10_000]),
        ])
    );
}

#[test]
fn platforms_redden_as_the_player_weakens() {
    let corners = |amount: i64| {
        two_triangles([
            red([-ONE, -ONE, 0], amount),
            red([-ONE, -600_000, 0], amount),
            red([ONE, -ONE, 0], amount),
            red([ONE, -600_000, 0], amount),
        ])
    };
    let mut v = Vec::new();
    floor().render(&mut v, ONE);
    assert_eq!(v, corners(0));
    floor().render(&mut v, 500_000);
    assert_eq!(v[6..12], corners(250_000));
    floor().render(&mut v, 0);
    assert_eq!(v[12..18], corners(500_000));
    let mut g = GameState::new();
    g.platforms.push(floor());
    g.player.hp = 15 * ONE;
    assert_eq!(g.render()[6..12], corners(250_000));
}

#[test]
fn enemy_shine_depends_on_its_start_time_only() {
    let mut e = enemy_at(vec2(0, 0), 3 * ONE);
    assert_eq!(e.seed(), 300);
    assert_eq!(e.jitter(), 943_436);
    assert_eq!(e.shine_rate(), 29_490);
    e.centre_pos = vec2(9, 9);
    e.vel = vec2(-1, 1);
    assert_eq!(e.jitter(), 943_436);
    e.start_time = 3_009_999;
    assert_eq!(e.seed(), 300);
    e.start_time = 10_000;
    assert_eq!(e.seed(), 1);
    assert_eq!(e.jitter(), 590_679);
    assert_eq!(e.shine_rate(), 26_316);
    e.start_time = -5 * ONE;
    assert_eq!(e.seed(), 0);
    assert_eq!(e.jitter(), 887_295);
    assert_eq!(e.shine_rate(), 28_985);
    e.start_time = 9_999;
    assert_eq!(e.seed(), 0);
    let mut v = Vec::new();
    e.render(&mut v);
    assert_eq!(
        v,
        two_triangles([
            purple([9 - 40_000, 9 - 75_000, 100], 9_999, 28_985),
            purple([9 - 40_000, 9 + 75_000, 100], 6_910_119, 28_985),
            purple([9 + 40_000, 9 - 75_000, 100], 13_810_239, 28_985),
            purple([9 + 40_000, 9 + 75_000, 100], 20_710_359, 28_985),
        ])
    );
}

#[test]
fn a_trail_segment_is_drawn_as_a_stroke() {
    let mut v = Vec::new();
    Trail::new(vec2(0, 0), vec2(0, -4_000), ONE, 0).render(&mut v);
    assert_eq!(
        v,
        two_triangles([
            grey([10_000, 1_000, 1_000], [-1_000_000, 1_500_000, 4_000_000]),
            grey([-10_000, 1_000, 1_000], [-500_000, 2_000_000, 4_500_000]),
            grey([10_000, -5_000, 1_000], [0, 2_500_000, 5_500_000]),
            grey([-10_000, -5_000, 1_000], [500_000, 3_000_000, 5_500_000]),
        ])
    );
    Trail::new(vec2(3, 4), vec2(3, 4), 10 * ONE, 9 * ONE).render(&mut v);
    assert_eq!(v.len(), 6);
}

#[test]
fn a_slanted_stroke_is_as_wide_across_its_direction() {
    let mut v = Vec::new();
    Trail::new(vec2(100_000, 200_000), vec2(130_000, 240_000), 7 * ONE, 5 * ONE).render(&mut v);
    assert_eq!(
        v,
        two_triangles([
            grey([91_400, 205_200, 1_000], [-7_000_000, -4_500_000, -2_000_000]),
            grey([107_400, 193_200, 1_000], [-6_500_000, -4_000_000, -1_500_000]),
            grey([122_600, 246_800, 1_000], [-5_000_000, -2_500_000, 500_000]),
            grey([138_600, 234_800, 1_000], [-4_500_000, -2_000_000, 500_000]),
        ])
    );
}

#[test]
fn events_can_be_copied() {
    let e = key_down("ArrowUp");
    let mut g = GameState::new();
    g.input_event(e.clone());
    assert_eq!(g.player.movement, [false, false, true, false]);
    assert!(matches!(e.clone(), InputEvent::KeyDown(k) if k == "ArrowUp"));
    assert!(matches!(InputEvent::Wheel(-ONE).clone(), InputEvent::Wheel(d) if d == -ONE));
    assert!(matches!(InputEvent::LeftClick.clone(), InputEvent::LeftClick));
    assert!(matches!(InputEvent::RightClick.clone(), InputEvent::RightClick));
    assert!(matches!(key_up("a").clone(), InputEvent::KeyUp(k) if k == "a"));
}

#[test]
fn obstacles_list_enemies_before_platforms() {
    let enemies = vec![enemy_at(vec2(ONE, ONE), 0), enemy_at(vec2(2 * ONE, ONE), 0)];
    let platforms = vec![floor()];
    let obs = platformer::enemy::obstacles(&enemies, &platforms);
    assert_eq!(obs.len(), 3);
    assert!(obs[0].is_enemy);
    assert_eq!(obs[0].bounds.pos, vec2(960_000, 925_000));
    assert!(obs[1].is_enemy);
    assert_eq!(obs[1].bounds.pos, vec2(1_960_000, 925_000));
    assert!(!obs[2].is_enemy);
    assert_eq!(obs[2].bounds.pos, vec2(-ONE, -ONE));
    assert_eq!(obs[2].bounds.vel, vec2(0, 0));
    assert!(platformer::enemy::obstacles(&Vec::new(), &Vec::new()).is_empty());
}

#[test]
fn same_inputs_give_the_same_run() {
    let mut runs: Vec<(Vec2, Vec2, i64, Vec2)> = Vec::new();
    for _ in 0..2 {
        let mut g = GameState::new();
        g.platforms.push(floor());
        g.enemies.push(enemy_at(vec2(900_000, 0), 0));
        let mut u = UniformData::new();
        run(&mut g, &mut u, 40);
        g.input_event(key_down("d"));
        g.input_event(key_down("w"));
        run(&mut g, &mut u, 60);
        g.input_event(key_up("d"));
        run(&mut g, &mut u, 100);
        runs.push((g.player.centre_pos, g.player.vel, g.player.hp, g.enemies[0].centre_pos));
    }
    assert_eq!(runs[0], runs[1]);
}

#[test]
fn an_enemy_moves_among_the_others_and_keeps_its_place() {
    let platforms = vec![Platform { centre_pos: vec2(0, -800_000), size: vec2(4 * ONE, 400_000) }];
    let first = enemy_at(vec2(300_000, -520_000), 0);
    let mut second = enemy_at(vec2(350_000, 0), 0);
    second.vel = vec2(0, 10_000);
    let third = enemy_at(vec2(-700_000, 0), 0);
    let player = Player::new();
    let u = UniformData { time: ONE, cam_pos: vec2(0, 0) };

    let mut enemies = vec![first, second, third];
    platformer::game_state::move_enemy(&mut enemies, 1, &player, &platforms, &u);
    assert_eq!(enemies.len(), 3);
    assert_eq!(enemies[0], first);
    assert_eq!(enemies[2], third);

    let mut alone = second;
    alone.do_movement(&player, &platforms, &vec![first, third], &u);
    assert_eq!(enemies[1], alone);
    assert_eq!(alone.centre_pos, vec2(348_750, 6_000));
    assert_eq!(alone.vel, vec2(-1_226, 5_928));

    let mut with_itself = second;
    with_itself.do_movement(&player, &platforms, &vec![first, second, third], &u);
    assert_ne!(enemies[1], with_itself);
}

#[test]
fn corners_of_a_stroke_lie_beyond_its_ends() {
    let t = Trail::new(vec2(0, 0), vec2(0, -4_000), 7 * ONE, 5 * ONE);
    let dir = vec2(0, -ONE);
    let base = [0, 250_000, 500_000];
    assert_eq!(
        t.corner(vec2(10_000, 0), dir, false, base),
        grey([10_000, 1_000, 1_000], [-7_000_000, -4_500_000, -2_000_000])
    );
    assert_eq!(
        t.corner(vec2(10_000, -4_000), dir, true, base),
        grey([10_000, -5_000, 1_000], [-5_000_000, -2_500_000, 0])
    );
}
