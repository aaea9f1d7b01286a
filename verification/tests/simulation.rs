use panda_core::{
    advance_kick_frame, calculate_relative_x, decrease_velocity, execute_core_logic,
    extract_obstacles, increase_velocity, load_sounds, rebuild_adjacency, sort_obstacles_by_bottom,
    spawn_stacked_obstacles, ApplyGravity, CheckGameOver, CheckTrapCollision, Direction,
    EventQueue, GameMap, GameState, HorizontalBounds, Jump, Kick, MoveRight, Obstacle, ObstacleId,
    Player, PlayerState, SpriteMetrics, Tile, TileType, Trap, TrapId, VerticalBounds, FULL_HEALTH,
    GROUND, JUMP_SOUND, JUMP_VELOCITY, KICK_BOX_SOUND, KICK_SOUND, KICK_FRAME_DURATION,
    MAX_VELOCITY,
};

fn obstacle(id: usize, x_left: i64, x_right: i64, y_top: i64, y_bottom: i64, durability: u8) -> Obstacle {
    Obstacle {
        id: ObstacleId(id),
        x_left,
        x_right,
        y_top,
        y_bottom,
        velocity_y: 0,
        falling: false,
        active: true,
        durability,
        is_bottom_obstacle: false,
        is_top_obstacle: true,
        is_leftmost_obstacle: false,
        is_rightmost_obstacle: false,
        left_obstacle: None,
        right_obstacle: None,
        over_obstacle: None,
        under_obstacle: None,
    }
}

fn trap(id: usize, x_left: i64, y_bottom: i64) -> Trap {
    Trap {
        id: TrapId(id),
        x_left,
        x_right: x_left + 16_000,
        y_top: y_bottom - 16_000,
        y_bottom,
        active: true,
    }
}

fn one_map_state(player: Player, obstacles: Vec<Obstacle>, traps: Vec<Trap>) -> GameState {
    let mut map = GameMap::new(1, 640, 360, 0, Some(200_000));
    map.obstacles = obstacles;
    map.traps = traps;
    let mut gs = GameState::new(player, vec![map]);
    gs.obstacle_spawned = true;
    gs.trap_spawned = true;
    gs
}

fn metrics() -> SpriteMetrics {
    SpriteMetrics { left_width: 25_000, right_width: 25_000 }
}

#[test]
fn jump_from_ground_sets_jump_velocity() {
    let mut gs = one_map_state(Player::new(1_000, 176_000), vec![], vec![]);
    let mut ev = EventQueue::new();
    Jump.execute(&mut gs, &mut ev);
    assert_eq!(gs.player.vy, JUMP_VELOCITY);
    assert!(!gs.player.on_ground);
    assert!(gs.player.is_jumping);
    assert_eq!(ev.events.len(), 1);
    assert_eq!(ev.events[0].sound, JUMP_SOUND);
    assert_eq!(ev.events[0].duration_ms, 1500);
}

#[test]
fn jump_in_air_does_nothing() {
    let mut player = Player::new(1_000, 100_000);
    player.on_ground = false;
    player.state = PlayerState::InAir;
    player.is_jumping = true;
    let mut gs = one_map_state(player, vec![], vec![]);
    let mut ev = EventQueue::new();
    Jump.execute(&mut gs, &mut ev);
    assert_eq!(gs.player.vy, 0);
    assert!(ev.events.is_empty());
}

fn kicking_player() -> Player {
    let mut p = Player::new(195_000, 200_000);
    p.direction = Direction::Left;
    p
}

#[test]
fn kick_decrements_durability_then_removes_and_cascades() {
    // A durable box with another box stacked directly above it.
    let target = obstacle(0, 200_000, 216_000, 184_000, 200_000, 2);
    let stacked = obstacle(1, 200_000, 216_000, 168_000, 184_000, 2);
    // A wide box whose span is not contained in the target's span.
    let wide = obstacle(2, 190_000, 230_000, 150_000, 166_000, 2);
    let mut gs = one_map_state(kicking_player(), vec![target, stacked, wide], vec![]);
    let mut ev = EventQueue::new();
    let m = metrics();

    // First kick: durability 2 -> 1, still active.
    Kick.execute(&mut gs, &mut ev, &m);
    assert_eq!(gs.all_maps[0].obstacles[0].durability, 1);
    assert!(gs.all_maps[0].obstacles[0].active);
    assert_eq!(ev.events.last().unwrap().sound, KICK_BOX_SOUND);

    // Second kick: durability 1 -> 0, still active.
    Kick.execute(&mut gs, &mut ev, &m);
    assert_eq!(gs.all_maps[0].obstacles[0].durability, 0);
    assert!(gs.all_maps[0].obstacles[0].active);

    // Third kick: durability exhausted, the box is deactivated and the box
    // stacked inside its span starts falling; the wide box is untouched.
    Kick.execute(&mut gs, &mut ev, &m);
    assert!(!gs.all_maps[0].obstacles[0].active);
    assert!(gs.all_maps[0].obstacles[1].falling);
    assert_eq!(gs.all_maps[0].obstacles[1].velocity_y, 0);
    assert!(!gs.all_maps[0].obstacles[2].falling);
}

#[test]
fn kick_whiff_emits_whiff_sound_only() {
    let mut gs = one_map_state(kicking_player(), vec![], vec![]);
    let mut ev = EventQueue::new();
    Kick.execute(&mut gs, &mut ev, &metrics());
    assert!(gs.player.is_kicking);
    assert_eq!(ev.events.len(), 1);
    assert_eq!(ev.events[0].sound, KICK_SOUND);
}

#[test]
fn falling_obstacle_velocity_monotone_until_terminal() {
    let mut o = obstacle(0, 200_000, 216_000, 100_000, 116_000, 2);
    o.falling = true;
    let mut gs = one_map_state(Player::new(0, GROUND), vec![o], vec![]);
    let mut ev = EventQueue::new();
    let mut last_v = 0;
    for _ in 0..12 {
        ApplyGravity.execute(&mut gs, &mut ev);
        let b = gs.all_maps[0].obstacles[0];
        assert!(b.velocity_y >= last_v);
        last_v = b.velocity_y;
    }
    // Velocity reached the terminal value and the fall stopped exactly once.
    let b = gs.all_maps[0].obstacles[0];
    assert!(b.velocity_y >= 16_000);
    assert!(!b.falling);
    let before = gs.all_maps[0].obstacles[0];
    ApplyGravity.execute(&mut gs, &mut ev);
    assert_eq!(gs.all_maps[0].obstacles[0], before);
}

#[test]
fn velocity_never_exceeds_cap() {
    let mut gs = one_map_state(Player::new(0, GROUND), vec![], vec![]);
    for _ in 0..200 {
        increase_velocity(&mut gs);
        assert!(gs.player.vx.abs() <= MAX_VELOCITY);
    }
    assert_eq!(gs.player.vx, MAX_VELOCITY);
}

#[test]
fn velocity_decays_to_exactly_zero() {
    let mut gs = one_map_state(Player::new(0, GROUND), vec![], vec![]);
    gs.player.vx = MAX_VELOCITY;
    let mut ticks = 0;
    while gs.player.vx != 0 {
        decrease_velocity(&mut gs);
        ticks += 1;
        assert!(ticks <= 382, "speed should have converged");
    }
    assert_eq!(gs.player.vx, 0);
}

#[test]
fn first_acceleration_tick_is_exact() {
    let mut gs = one_map_state(Player::new(0, GROUND), vec![], vec![]);
    increase_velocity(&mut gs);
    // (0 + 100) * 98 / 100
    assert_eq!(gs.player.vx, 98);
}

#[test]
fn first_decay_tick_is_exact() {
    let mut gs = one_map_state(Player::new(0, GROUND), vec![], vec![]);
    gs.player.vx = 2_000;
    decrease_velocity(&mut gs);
    assert_eq!(gs.player.vx, 1_900);
}

#[test]
fn support_flags_exclusive_after_tick() {
    let mut gs = one_map_state(Player::new(1_000, 176_000), vec![], vec![]);
    let mut ev = EventQueue::new();
    for _ in 0..10 {
        execute_core_logic(&mut gs, &mut ev, &metrics());
        assert!(!(gs.player.on_ground && gs.player.on_obstacle));
        if !gs.player.on_ground && !gs.player.on_obstacle {
            assert_eq!(gs.player.state, PlayerState::InAir);
        }
    }
}

#[test]
fn trap_overlap_damages_and_knocks_back() {
    let t = trap(0, 190_000, 210_000);
    let mut gs = one_map_state(Player::new(195_000, 200_000), vec![], vec![t]);
    let mut ev = EventQueue::new();
    CheckTrapCollision.execute(&mut gs);
    assert_eq!(gs.player.health, FULL_HEALTH - 1);
    assert!(gs.damage_taken);
    assert!(gs.player.invincible);
    assert_eq!(gs.designated_x, 190_000 - 40_000);
    // Damage recovery walks the player toward the knockback target.
    let x0 = gs.player.x;
    CheckGameOver.execute(&mut gs);
    assert_eq!(gs.player.x, x0 - 2_000);
    let _ = ev;
}

#[test]
fn trap_ignored_while_invincible() {
    let t = trap(0, 190_000, 210_000);
    let mut player = Player::new(195_000, 200_000);
    player.invincible = true;
    let mut gs = one_map_state(player, vec![], vec![t]);
    CheckTrapCollision.execute(&mut gs);
    assert_eq!(gs.player.health, FULL_HEALTH);
    assert!(!gs.damage_taken);
}

#[test]
fn health_zero_raises_game_over_and_resets() {
    let t = trap(0, 190_000, 210_000);
    let mut player = Player::new(195_000, 200_000);
    player.health = 1;
    let mut gs = one_map_state(player, vec![], vec![t]);
    CheckTrapCollision.execute(&mut gs);
    assert_eq!(gs.player.health, 0);
    assert!(gs.player.game_over);
    gs.damage_taken = false;
    let fired = CheckGameOver.execute(&mut gs);
    assert!(fired);
    assert_eq!(gs.player.health, FULL_HEALTH);
    assert_eq!(gs.player.x, 0);
    assert_eq!(gs.player.y, GROUND);
    assert!(!gs.player.game_over);
}

#[test]
fn reaching_transition_bound_advances_map() {
    let mut first = GameMap::new(1, 640, 360, 0, Some(200_000));
    first.obstacles = vec![];
    let second = GameMap::new(2, 640, 360, 5_000, None);
    let mut gs = GameState::new(Player::new(225_000, GROUND), vec![first, second]);
    HorizontalBounds.execute(&mut gs);
    assert_eq!(gs.current_map_index, 1);
    assert_eq!(gs.player.x, 5_000);
}

#[test]
fn lower_bound_pins_player() {
    let mut gs = one_map_state(Player::new(0, GROUND), vec![], vec![]);
    gs.player.x = -5_000;
    gs.player.vx = 1_000;
    HorizontalBounds.execute(&mut gs);
    assert_eq!(gs.player.x, 0);
    assert_eq!(gs.player.vx, 0);
}

#[test]
fn ceiling_resets_to_ground() {
    let mut gs = one_map_state(Player::new(0, GROUND), vec![], vec![]);
    gs.player.y = 30_000;
    VerticalBounds.execute(&mut gs);
    assert_eq!(gs.player.y, GROUND);
    assert!(!gs.player.on_ground);
}

#[test]
fn sort_orders_by_bottom_and_keeps_ties_stable() {
    let a = obstacle(0, 0, 16_000, 84_000, 100_000, 2);
    let b = obstacle(1, 0, 16_000, 34_000, 50_000, 2);
    let c = obstacle(2, 20_000, 36_000, 84_000, 100_000, 2);
    let mut v = vec![a, b, c];
    sort_obstacles_by_bottom(&mut v);
    assert_eq!(v[0].id, ObstacleId(1));
    assert_eq!(v[1].id, ObstacleId(0));
    assert_eq!(v[2].id, ObstacleId(2));
}

#[test]
fn extract_obstacles_builds_adjacency_from_tiles() {
    // Two obstacle tiles stacked in one column, one grass tile beside them.
    let bottom = Tile {
        tile_type: TileType::Obstacle,
        x_left: 0,
        x_right: 16_000,
        y_top: 84_000,
        y_bottom: 100_000,
    };
    let top = Tile {
        tile_type: TileType::Obstacle,
        x_left: 0,
        x_right: 16_000,
        y_top: 68_000,
        y_bottom: 84_000,
    };
    let grass = Tile {
        tile_type: TileType::Grass,
        x_left: 16_000,
        x_right: 32_000,
        y_top: 84_000,
        y_bottom: 100_000,
    };
    let tiles = vec![bottom, top, grass];
    let obstacles = extract_obstacles(&tiles);
    assert_eq!(obstacles.len(), 2);
    // The bottom box carries the top box and is not topmost.
    assert!(!obstacles[0].is_top_obstacle);
    assert!(obstacles[0].is_bottom_obstacle);
    assert_eq!(obstacles[0].over_obstacle, Some(ObstacleId(1)));
    assert_eq!(obstacles[0].under_obstacle, None);
    // The top box is topmost and rests on the bottom box.
    assert!(obstacles[1].is_top_obstacle);
    assert!(!obstacles[1].is_bottom_obstacle);
    assert_eq!(obstacles[1].under_obstacle, Some(ObstacleId(0)));
    // A lone column is both leftmost and rightmost.
    assert!(obstacles[0].is_leftmost_obstacle);
    assert!(obstacles[0].is_rightmost_obstacle);
}

#[test]
fn relative_x_is_offset_and_clamped() {
    assert_eq!(calculate_relative_x(200, 1), 308);
    assert_eq!(calculate_relative_x(0, 10_000), 0);
}

#[test]
fn sound_table_layout() {
    let sounds = load_sounds();
    assert_eq!(sounds.len(), 11);
    assert_eq!(sounds[JUMP_SOUND], "assets/sounds/jump.wav");
    assert_eq!(sounds[0], "assets/sounds/walk_1.wav");
    assert_eq!(sounds[10], "assets/sounds/kick_box.wav");
}

#[test]
fn walking_emits_footsteps_when_active() {
    let mut gs = one_map_state(Player::new(0, GROUND), vec![], vec![]);
    gs.footstep_active = true;
    let mut ev = EventQueue::new();
    MoveRight.execute(&mut gs, &mut ev);
    assert_eq!(gs.footstep_index, 1);
    assert_eq!(ev.events.len(), 1);
    assert_eq!(ev.events[0].duration_ms, 200);
    assert_eq!(gs.player.direction, Direction::Right);
}

#[test]
fn landing_on_ground_emits_mild_fall_sound() {
    let mut player = Player::new(0, 204_000);
    player.on_ground = false;
    player.state = PlayerState::InAir;
    player.is_jumping = true;
    player.vy = 2_000;
    let mut gs = one_map_state(player, vec![], vec![]);
    let mut ev = EventQueue::new();
    panda_core::jump_obstacles(&mut gs, &mut ev);
    assert_eq!(gs.player.y, GROUND);
    assert_eq!(gs.player.state, PlayerState::OnGround);
    assert_eq!(ev.events.len(), 1);
    assert_eq!(ev.events[0].sound, panda_core::FALL_MILD_SOUND);
}

#[test]
fn spawn_triggers_fire_once() {
    let mut gs = one_map_state(Player::new(0, GROUND), vec![], vec![]);
    gs.obstacle_spawned = false;
    gs.trap_spawned = false;
    let mut ev = EventQueue::new();
    execute_core_logic(&mut gs, &mut ev, &metrics());
    assert_eq!(gs.all_maps[0].obstacles.len(), 2);
    assert_eq!(gs.all_maps[0].traps.len(), 2);
    assert!(gs.obstacle_spawned);
    let n = gs.all_maps[0].obstacles.len();
    execute_core_logic(&mut gs, &mut ev, &metrics());
    assert_eq!(gs.all_maps[0].obstacles.len(), n);
}

#[test]
fn kick_animation_runs_its_course() {
    let mut gs = one_map_state(kicking_player(), vec![], vec![]);
    let mut ev = EventQueue::new();
    Kick.execute(&mut gs, &mut ev, &metrics());
    assert!(gs.player.is_kicking);
    assert_eq!(gs.player.kick_frame, 0);
    for _ in 0..KICK_FRAME_DURATION {
        advance_kick_frame(&mut gs.player);
    }
    assert!(gs.player.is_kicking);
    assert_eq!(gs.player.kick_frame, 1);
    for _ in 0..KICK_FRAME_DURATION {
        advance_kick_frame(&mut gs.player);
    }
    assert!(!gs.player.is_kicking);
    assert_eq!(gs.player.kick_frame, 0);
    assert_eq!(gs.player.kick_frame_timer, 0);
}

#[test]
fn runtime_spawn_recomputes_the_graph() {
    let mut gs = one_map_state(Player::new(0, GROUND), vec![], vec![]);
    gs.obstacle_spawned = false;
    let mut ev = EventQueue::new();
    execute_core_logic(&mut gs, &mut ev, &metrics());
    // Two free-standing boxes: each is both topmost and bottommost, and
    // both leftmost and rightmost, exactly as a full recompute gives.
    for o in gs.all_maps[0].obstacles.iter() {
        assert!(o.is_top_obstacle && o.is_bottom_obstacle);
        assert!(o.is_leftmost_obstacle && o.is_rightmost_obstacle);
        assert_eq!(o.over_obstacle, None);
        assert_eq!(o.under_obstacle, None);
    }
}

#[test]
fn stacked_spawn_links_point_upward() {
    let mut obstacles: Vec<Obstacle> = vec![];
    let mut traps: Vec<Trap> = vec![];
    spawn_stacked_obstacles(100_000, 200_000, 3, &mut obstacles, &mut traps);
    assert_eq!(obstacles.len(), 3);
    // The bottom box's over link names the box resting on top of it.
    assert_eq!(obstacles[0].over_obstacle, Some(ObstacleId(1)));
    assert_eq!(obstacles[0].under_obstacle, None);
    assert!(obstacles[0].is_bottom_obstacle && !obstacles[0].is_top_obstacle);
    // The middle box links both ways.
    assert_eq!(obstacles[1].over_obstacle, Some(ObstacleId(2)));
    assert_eq!(obstacles[1].under_obstacle, Some(ObstacleId(0)));
    // The top box has nothing over it.
    assert_eq!(obstacles[2].over_obstacle, None);
    assert_eq!(obstacles[2].under_obstacle, Some(ObstacleId(1)));
    assert!(obstacles[2].is_top_obstacle && !obstacles[2].is_bottom_obstacle);
    // The trap sits at the base of the stack, one tile to the right.
    assert_eq!(traps.len(), 1);
    assert_eq!(traps[0].x_left, 116_000);
    assert_eq!(traps[0].x_right, 132_000);
    assert_eq!(traps[0].y_bottom, 200_000);
    assert!(traps[0].active);
}

#[test]
fn rebuild_ignores_inactive_neighbors() {
    let mut bottom = obstacle(0, 0, 16_000, 84_000, 100_000, 2);
    bottom.is_top_obstacle = false;
    let mut top = obstacle(1, 0, 16_000, 68_000, 84_000, 2);
    top.active = false;
    let mut v = vec![bottom, top];
    rebuild_adjacency(&mut v);
    // The deactivated box no longer counts as a neighbor.
    assert!(v[0].is_top_obstacle);
    assert_eq!(v[0].over_obstacle, None);
}
