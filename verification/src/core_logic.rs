//! The frame pipeline: world bounds, damage recovery and game over, position
//! integration, animation timers, spawn triggers, and the ordered scheduler
//! that runs every system exactly once per tick.

use vstd::prelude::*;

use crate::arith::{bounded_add, clip_add};
use crate::collision::{spec_collision_detection, spec_trap_damage, CheckTrapCollision, CollisionDetection};
use crate::constants::{
    CEILING, GROUND, GROUND_FRAME_MS, HEART_FRAME_MS, INITIAL_DURABILITY, KNOCKBACK_STEP,
    LIGHTHOUSE_FRAME_MS, LOWER_BOUND, TILE_SIZE, TOXIC_FAST_FRAME_MS, TOXIC_SLOW_FRAME_MS,
    UPPER_BOUND,
};
use crate::events::{EventQueue, SoundEvent};
use crate::gravity::{
    spec_apply_gravity, spec_apply_gravity_events, spec_jump_obstacles,
    spec_jump_obstacles_events, ApplyGravity, JumpingObstacles,
};
use crate::structs::{
    coord_ok, cur_map, game_wf, map_model_wf, metrics_wf, model_wf, obstacle_wf, player_wf,
    spec_reset_player, trap_wf, with_obstacles, Direction, GameModel, GameState, Obstacle,
    ObstacleId, Player, PlayerState, SpriteMetrics, Trap, TrapId,
};

verus! {

/// The system that keeps the player inside the vertical world bounds.
pub struct VerticalBounds;

/// A player at or above the ceiling is reset to the ground line with support
/// cleared.
pub open spec fn spec_vertical_bounds(g: GameModel) -> GameModel {
    if g.player.y <= CEILING {
        GameModel { player: Player { on_ground: false, y: GROUND, ..g.player }, ..g }
    } else {
        g
    }
}

impl VerticalBounds {
    /// Clamp the player's vertical position.
    #[verifier::rlimit(100)]
    #[verifier::spinoff_prover]
    pub fn execute(&self, game_state: &mut GameState)
        requires
            game_wf(*old(game_state)),
        ensures
            final(game_state)@ == spec_vertical_bounds(old(game_state)@),
            game_wf(*final(game_state)),
    {
        if game_state.player.y <= CEILING {
            game_state.player.on_ground = false;
            game_state.player.y = GROUND;
        }
    }
}

/// The system that keeps the player inside the horizontal world bounds and
/// drives the level transition.
pub struct HorizontalBounds;

/// The x coordinate at which the current map hands over to the next one.
pub open spec fn spec_transition_bound(g: GameModel) -> i64 {
    match cur_map(g).transition_x {
        Some(t) => t,
        None => UPPER_BOUND,
    }
}

/// Below the lower bound the player is pinned there with zero speed;
/// reaching the transition bound moves the game to the next map (when one
/// exists) and places the player at its entry point.
pub open spec fn spec_horizontal_bounds(g: GameModel) -> GameModel {
    if g.player.x < LOWER_BOUND {
        GameModel { player: Player { x: LOWER_BOUND, vx: 0, ..g.player }, ..g }
    } else if g.player.x >= spec_transition_bound(g) && g.current_map_index + 1 < g.all_maps.len() {
        GameModel {
            current_map_index: (g.current_map_index + 1) as usize,
            player: Player {
                x: g.all_maps[g.current_map_index + 1].starting_x,
                ..g.player
            },
            ..g
        }
    } else {
        g
    }
}

impl HorizontalBounds {
    /// Clamp the player's horizontal position and run the map transition.
    #[verifier::rlimit(100)]
    #[verifier::spinoff_prover]
    pub fn execute(&self, game_state: &mut GameState)
        requires
            game_wf(*old(game_state)),
        ensures
            final(game_state)@ == spec_horizontal_bounds(old(game_state)@),
            game_wf(*final(game_state)),
    {
        let ghost g0 = old(game_state)@;
        if game_state.player.x < LOWER_BOUND {
            game_state.player.x = LOWER_BOUND;
            game_state.player.vx = 0;
            proof {
                assert(game_state@ == spec_horizontal_bounds(g0));
            }
        } else {
            let idx = game_state.current_map_index;
            proof {
                assert(idx < g0.all_maps.len());
                assert(map_model_wf(cur_map(g0)));
            }
            let bound: i64 = match game_state.all_maps[idx].transition_x {
                Some(t) => t,
                None => UPPER_BOUND,
            };
            proof {
                assert(bound == spec_transition_bound(g0));
            }
            let map_count = game_state.all_maps.len();
            if game_state.player.x >= bound && idx + 1 < map_count {
                game_state.current_map_index = idx + 1;
                proof {
                    assert(map_model_wf(g0.all_maps[idx + 1]));
                }
                game_state.player.x = game_state.all_maps[idx + 1].starting_x;
                proof {
                    assert(game_state@.player == spec_horizontal_bounds(g0).player);
                    assert(game_state@ == spec_horizontal_bounds(g0));
                    assert(player_wf(game_state@.player));
                }
            } else {
                proof {
                    assert(game_state@ == spec_horizontal_bounds(g0));
                }
            }
        }
    }
}

/// The system that walks the player through damage recovery and handles the
/// end of the game.
pub struct CheckGameOver;

/// One damage-recovery step: while the flag is set, the player is walked
/// toward the knockback target and held invincible; on arrival both the flag
/// and the invincibility are cleared.
pub open spec fn spec_knockback(g: GameModel) -> GameModel {
    if g.damage_taken {
        if g.player.x > g.designated_x {
            GameModel {
                player: Player {
                    x: clip_add(g.player.x as int, -(KNOCKBACK_STEP as int)) as i64,
                    invincible: true,
                    ..g.player
                },
                ..g
            }
        } else {
            GameModel { player: Player { invincible: false, ..g.player }, damage_taken: false, ..g }
        }
    } else {
        g
    }
}

/// The game state after the game-over check: the knockback step runs, and a
/// raised `game_over` flag resets the player and the backdrop.
pub open spec fn spec_check_game_over(g: GameModel) -> GameModel {
    let g1 = spec_knockback(g);
    if g1.player.game_over {
        GameModel {
            game_over_index: 0,
            player: spec_reset_player(),
            mountains_sprite_frame_index: 0,
            ..g1
        }
    } else {
        g1
    }
}

impl CheckGameOver {
    /// Run damage recovery and the game-over reset; reports whether the
    /// game-over sequence fired, so the host can play it out.
    #[verifier::rlimit(100)]
    #[verifier::spinoff_prover]
    pub fn execute(&self, game_state: &mut GameState) -> (was_game_over: bool)
        requires
            game_wf(*old(game_state)),
        ensures
            final(game_state)@ == spec_check_game_over(old(game_state)@),
            was_game_over == old(game_state).player.game_over,
            game_wf(*final(game_state)),
    {
        if game_state.damage_taken {
            if game_state.player.x > game_state.designated_x {
                let x = bounded_add(game_state.player.x, -KNOCKBACK_STEP);
                game_state.player.x = x;
                game_state.player.invincible = true;
            } else {
                game_state.damage_taken = false;
                game_state.player.invincible = false;
            }
        }
        proof {
            assert(game_state@ == spec_knockback(old(game_state)@));
        }
        if game_state.player.game_over {
            game_state.game_over_index = 0;
            game_state.player = Player::new(0, GROUND);
            game_state.mountains_sprite_frame_index = 0;
            proof {
                assert(game_state@ == spec_check_game_over(old(game_state)@));
            }
            true
        } else {
            false
        }
    }
}

/// The system that integrates the player's position once per tick.
pub struct ModifyPosition;

/// Position integration: x advances by the speed in the facing direction,
/// y by the vertical velocity.
pub open spec fn spec_modify_position(g: GameModel) -> GameModel {
    let x1 = if g.player.direction == Direction::Left {
        clip_add(g.player.x as int, -(g.player.vx as int))
    } else {
        clip_add(g.player.x as int, g.player.vx as int)
    };
    GameModel {
        player: Player {
            x: x1 as i64,
            y: clip_add(g.player.y as int, g.player.vy as int) as i64,
            ..g.player
        },
        ..g
    }
}

impl ModifyPosition {
    /// Apply the per-tick position integration.
    #[verifier::rlimit(100)]
    #[verifier::spinoff_prover]
    pub fn execute(&self, game_state: &mut GameState)
        requires
            game_wf(*old(game_state)),
        ensures
            final(game_state)@ == spec_modify_position(old(game_state)@),
            game_wf(*final(game_state)),
    {
        if game_state.player.direction == Direction::Left {
            let x = bounded_add(game_state.player.x, -game_state.player.vx);
            game_state.player.x = x;
        } else {
            let x = bounded_add(game_state.player.x, game_state.player.vx);
            game_state.player.x = x;
        }
        let y = bounded_add(game_state.player.y, game_state.player.vy);
        game_state.player.y = y;
    }
}

/// The system that alternates the heart sprite frames.
pub struct AlternateHeartSpriteFrames;

/// The heart sprite alternates between its two frames every half second.
pub open spec fn spec_heart_frames(g: GameModel) -> GameModel {
    if g.clock_ms - g.last_heart_sprite_frame_index_change >= HEART_FRAME_MS {
        GameModel {
            heart_sprite_frame_index: ((g.heart_sprite_frame_index + 1) % 2) as usize,
            last_heart_sprite_frame_index_change: g.clock_ms,
            ..g
        }
    } else {
        g
    }
}

impl AlternateHeartSpriteFrames {
    /// Advance the heart sprite timer.
    #[verifier::rlimit(100)]
    #[verifier::spinoff_prover]
    pub fn execute(&self, game_state: &mut GameState)
        requires
            game_wf(*old(game_state)),
        ensures
            final(game_state)@ == spec_heart_frames(old(game_state)@),
            game_wf(*final(game_state)),
    {
        if game_state.clock_ms - game_state.last_heart_sprite_frame_index_change
            >= HEART_FRAME_MS {
            game_state.heart_sprite_frame_index = (game_state.heart_sprite_frame_index + 1) % 2;
            game_state.last_heart_sprite_frame_index_change = game_state.clock_ms;
        }
    }
}

/// The system that alternates the ground sprite frames.
pub struct AlternateGroundSpriteFrames;

/// The ground sprite alternates between its two frames five times a second.
pub open spec fn spec_ground_frames(g: GameModel) -> GameModel {
    if g.clock_ms - g.last_ground_sprite_frame_index_change >= GROUND_FRAME_MS {
        GameModel {
            ground_sprite_frame_index: ((g.ground_sprite_frame_index + 1) % 2) as usize,
            last_ground_sprite_frame_index_change: g.clock_ms,
            ..g
        }
    } else {
        g
    }
}

impl AlternateGroundSpriteFrames {
    /// Advance the ground sprite timer.
    #[verifier::rlimit(100)]
    #[verifier::spinoff_prover]
    pub fn execute(&self, game_state: &mut GameState)
        requires
            game_wf(*old(game_state)),
        ensures
            final(game_state)@ == spec_ground_frames(old(game_state)@),
            game_wf(*final(game_state)),
    {
        if game_state.clock_ms - game_state.last_ground_sprite_frame_index_change
            >= GROUND_FRAME_MS {
            game_state.ground_sprite_frame_index = (game_state.ground_sprite_frame_index + 1) % 2;
            game_state.last_ground_sprite_frame_index_change = game_state.clock_ms;
        }
    }
}

/// The system that cycles the lighthouse sprite frames.
pub struct AlternateLightHouseSpriteFrames;

/// The lighthouse cycles through its four frames at a steady beat.
pub open spec fn spec_lighthouse_frames(g: GameModel) -> GameModel {
    if g.clock_ms - g.last_light_house_sprite_frame_index_change >= LIGHTHOUSE_FRAME_MS {
        GameModel {
            lighthouse_sprite_frame_index: ((g.lighthouse_sprite_frame_index + 1) % 4) as usize,
            last_light_house_sprite_frame_index_change: g.clock_ms,
            ..g
        }
    } else {
        g
    }
}

impl AlternateLightHouseSpriteFrames {
    /// Advance the lighthouse sprite timer.
    #[verifier::rlimit(100)]
    #[verifier::spinoff_prover]
    pub fn execute(&self, game_state: &mut GameState)
        requires
            game_wf(*old(game_state)),
        ensures
            final(game_state)@ == spec_lighthouse_frames(old(game_state)@),
            game_wf(*final(game_state)),
    {
        if game_state.clock_ms - game_state.last_light_house_sprite_frame_index_change
            >= LIGHTHOUSE_FRAME_MS {
            game_state.lighthouse_sprite_frame_index = (game_state.lighthouse_sprite_frame_index
                + 1) % 4;
            game_state.last_light_house_sprite_frame_index_change = game_state.clock_ms;
        }
    }
}

/// The system that cycles the toxic trap sprite frames.
pub struct AlternateToxicTrapSpriteFrames;

/// The toxic trap plays its four lead-in frames slowly, then loops its two
/// tail frames at double speed forever.
pub open spec fn spec_toxic_frames(g: GameModel) -> GameModel {
    if g.toxic_trap_sprite_frame_index >= 4 {
        if g.clock_ms - g.last_toxic_sprite_frame_index_change >= TOXIC_FAST_FRAME_MS {
            GameModel {
                toxic_trap_sprite_frame_index: if g.toxic_trap_sprite_frame_index == 4 {
                    5
                } else {
                    4
                },
                last_toxic_sprite_frame_index_change: g.clock_ms,
                ..g
            }
        } else {
            g
        }
    } else if g.clock_ms - g.last_toxic_sprite_frame_index_change >= TOXIC_SLOW_FRAME_MS {
        GameModel {
            toxic_trap_sprite_frame_index: ((g.toxic_trap_sprite_frame_index + 1) % 6) as usize,
            last_toxic_sprite_frame_index_change: g.clock_ms,
            ..g
        }
    } else {
        g
    }
}

impl AlternateToxicTrapSpriteFrames {
    /// Advance the toxic trap sprite timer.
    #[verifier::rlimit(100)]
    #[verifier::spinoff_prover]
    pub fn execute(&self, game_state: &mut GameState)
        requires
            game_wf(*old(game_state)),
        ensures
            final(game_state)@ == spec_toxic_frames(old(game_state)@),
            game_wf(*final(game_state)),
    {
        if game_state.toxic_trap_sprite_frame_index >= 4 {
            if game_state.clock_ms - game_state.last_toxic_sprite_frame_index_change
                >= TOXIC_FAST_FRAME_MS {
                game_state.toxic_trap_sprite_frame_index =
                    if game_state.toxic_trap_sprite_frame_index == 4 {
                    5
                } else {
                    4
                };
                game_state.last_toxic_sprite_frame_index_change = game_state.clock_ms;
            }
        } else if game_state.clock_ms - game_state.last_toxic_sprite_frame_index_change
            >= TOXIC_SLOW_FRAME_MS {
            game_state.toxic_trap_sprite_frame_index = (game_state.toxic_trap_sprite_frame_index
                + 1) % 6;
            game_state.last_toxic_sprite_frame_index_change = game_state.clock_ms;
        }
    }
}

/// The obstacle a runtime spawn creates: a fresh box of full durability
/// whose bottom sits at the given point. Its flags are what a recompute
/// gives a free-standing box — no neighbor in any direction — and the spawn
/// triggers rebuild the whole graph right after pushing, so boxes spawned
/// next to others get their true neighbors.
pub open spec fn spec_spawned_obstacle(x: i64, y: i64, id: usize) -> Obstacle {
    Obstacle {
        id: ObstacleId(id),
        x_left: x,
        x_right: (x + TILE_SIZE) as i64,
        y_bottom: y,
        y_top: (y - TILE_SIZE) as i64,
        active: true,
        durability: INITIAL_DURABILITY,
        falling: false,
        velocity_y: 0,
        left_obstacle: None,
        right_obstacle: None,
        over_obstacle: None,
        under_obstacle: None,
        is_bottom_obstacle: true,
        is_top_obstacle: true,
        is_leftmost_obstacle: true,
        is_rightmost_obstacle: true,
    }
}

/// Append a freshly spawned obstacle whose bottom sits at `(x, y)`.
pub fn spawn_obstacle(x: i64, y: i64, obstacles: &mut Vec<Obstacle>)
    requires
        -COORD_LIMIT_MARGIN <= x <= COORD_LIMIT_MARGIN,
        -COORD_LIMIT_MARGIN <= y <= COORD_LIMIT_MARGIN,
    ensures
        final(obstacles)@ == old(obstacles)@.push(
            spec_spawned_obstacle(x, y, old(obstacles)@.len() as usize),
        ),
{
    let id = obstacles.len();
    obstacles.push(
        Obstacle {
            id: ObstacleId(id),
            x_left: x,
            x_right: x + TILE_SIZE,
            y_bottom: y,
            y_top: y - TILE_SIZE,
            active: true,
            durability: INITIAL_DURABILITY,
            falling: false,
            velocity_y: 0,
            left_obstacle: None,
            right_obstacle: None,
            over_obstacle: None,
            under_obstacle: None,
            is_bottom_obstacle: true,
            is_top_obstacle: true,
            is_leftmost_obstacle: true,
            is_rightmost_obstacle: true,
        },
    );
}

/// The world range left for spawned boxes: one tile inside the world cap.
pub const COORD_LIMIT_MARGIN: i64 = 999_999_984_000;

/// The trap a runtime spawn creates.
pub open spec fn spec_spawned_trap(x: i64, y: i64, id: usize) -> Trap {
    Trap {
        id: TrapId(id),
        x_left: x,
        x_right: (x + TILE_SIZE) as i64,
        y_bottom: y,
        y_top: (y - TILE_SIZE) as i64,
        active: true,
    }
}

/// Append a freshly spawned trap whose bottom sits at `(x, y)`.
pub fn spawn_trap(x: i64, y: i64, traps: &mut Vec<Trap>)
    requires
        -COORD_LIMIT_MARGIN <= x <= COORD_LIMIT_MARGIN,
        -COORD_LIMIT_MARGIN <= y <= COORD_LIMIT_MARGIN,
    ensures
        final(traps)@ == old(traps)@.push(spec_spawned_trap(x, y, old(traps)@.len() as usize)),
{
    let id = traps.len();
    traps.push(
        Trap {
            id: TrapId(id),
            x_left: x,
            x_right: x + TILE_SIZE,
            y_bottom: y,
            y_top: y - TILE_SIZE,
            active: true,
        },
    );
}

/// The `i`-th box of a stack of `count` spawned obstacles: boxes pile upward
/// from `y_start`, each resting on the one below. Each box's `over` link
/// names the box resting on top of it and its `under` link the box it rests
/// on; the bottom box alone is a bottom obstacle, the top box alone a top
/// obstacle, and a free-standing column is leftmost and rightmost throughout.
pub open spec fn spec_stacked_obstacle(
    x: i64,
    y_start: i64,
    count: usize,
    base: usize,
    i: int,
) -> Obstacle {
    Obstacle {
        id: ObstacleId((base + i) as usize),
        x_left: x,
        x_right: (x + TILE_SIZE) as i64,
        y_bottom: (y_start - i * TILE_SIZE) as i64,
        y_top: (y_start - (i + 1) * TILE_SIZE) as i64,
        active: true,
        durability: INITIAL_DURABILITY,
        falling: false,
        velocity_y: 0,
        left_obstacle: None,
        right_obstacle: None,
        over_obstacle: if i + 1 < count {
            Some(ObstacleId((base + i + 1) as usize))
        } else {
            None
        },
        under_obstacle: if i > 0 {
            Some(ObstacleId((base + i - 1) as usize))
        } else {
            None
        },
        is_bottom_obstacle: i == 0,
        is_top_obstacle: i == count - 1,
        is_leftmost_obstacle: true,
        is_rightmost_obstacle: true,
    }
}

/// Spawn a column of `count` obstacles stacked upward from `y_start`, with a
/// trap at the base of the stack, one tile to the right; the adjacency graph
/// is then recomputed over the whole collection, as a runtime spawn demands.
pub fn spawn_stacked_obstacles(
    x: i64,
    y_start: i64,
    count: usize,
    obstacles: &mut Vec<Obstacle>,
    traps: &mut Vec<Trap>,
)
    requires
        0 <= x <= COORD_LIMIT_MARGIN - 2 * TILE_SIZE,
        old(obstacles)@.len() + count <= usize::MAX,
        -COORD_LIMIT_MARGIN + count * TILE_SIZE <= y_start <= COORD_LIMIT_MARGIN,
    ensures
        final(obstacles)@ == crate::world::adjacency_rebuild(
            old(obstacles)@ + Seq::new(
                count as nat,
                |i: int|
                    spec_stacked_obstacle(x, y_start, count, old(obstacles)@.len() as usize, i),
            ),
        ),
        final(traps)@ == old(traps)@.push(
            spec_spawned_trap((x + TILE_SIZE) as i64, y_start, old(traps)@.len() as usize),
        ),
{
    let ghost base = old(obstacles)@.len() as usize;
    let base_len = obstacles.len();
    let mut y_bottom: i64 = y_start;
    let mut y_top: i64 = y_start - TILE_SIZE;
    let mut i: usize = 0;
    while i < count
        invariant
            i <= count,
            base == old(obstacles)@.len(),
            base_len == base,
            base_len + count <= usize::MAX,
            0 <= x <= COORD_LIMIT_MARGIN - 2 * TILE_SIZE,
            -COORD_LIMIT_MARGIN + count * TILE_SIZE <= y_start <= COORD_LIMIT_MARGIN,
            y_bottom == y_start - i * TILE_SIZE,
            y_top == y_start - (i + 1) * TILE_SIZE,
            *traps == *old(traps),
            obstacles@ == old(obstacles)@ + Seq::new(
                i as nat,
                |k: int| spec_stacked_obstacle(x, y_start, count, base, k),
            ),
        decreases count - i,
    {
        let id = obstacles.len();
        obstacles.push(
            Obstacle {
                id: ObstacleId(id),
                x_left: x,
                x_right: x + TILE_SIZE,
                y_bottom,
                y_top,
                active: true,
                durability: INITIAL_DURABILITY,
                falling: false,
                velocity_y: 0,
                left_obstacle: None,
                right_obstacle: None,
                over_obstacle: if i + 1 < count {
                    Some(ObstacleId(id + 1))
                } else {
                    None
                },
                under_obstacle: if i > 0 {
                    Some(ObstacleId(id - 1))
                } else {
                    None
                },
                is_bottom_obstacle: i == 0,
                is_top_obstacle: i == count - 1,
                is_leftmost_obstacle: true,
                is_rightmost_obstacle: true,
            },
        );
        proof {
            assert(obstacles@ =~= old(obstacles)@ + Seq::new(
                (i + 1) as nat,
                |k: int| spec_stacked_obstacle(x, y_start, count, base, k),
            ));
        }
        y_bottom = y_top;
        y_top = y_top - TILE_SIZE;
        i = i + 1;
    }
    crate::world::rebuild_adjacency(obstacles);
    spawn_trap(x + TILE_SIZE, y_start, traps);
}

/// The system that spawns the two runtime obstacles once per game.
pub struct SpawnObstacles;

/// Until the trigger has fired, two fresh obstacles appear at the fixed
/// spawn points and the whole adjacency graph is recomputed, as the graph
/// builder demands after a runtime spawn; afterwards nothing changes.
pub open spec fn spec_spawn_obstacles(g: GameModel) -> GameModel {
    if !g.obstacle_spawned {
        let obs = cur_map(g).obstacles;
        let with_two = obs.push(spec_spawned_obstacle(200_000, 200_000, obs.len() as usize)).push(
            spec_spawned_obstacle(350_000, 200_000, (obs.len() + 1) as usize),
        );
        GameModel {
            obstacle_spawned: true,
            ..with_obstacles(g, crate::world::adjacency_rebuild(with_two))
        }
    } else {
        g
    }
}

impl SpawnObstacles {
    /// Fire the obstacle spawn trigger.
    #[verifier::rlimit(100)]
    #[verifier::spinoff_prover]
    pub fn execute(&self, game_state: &mut GameState)
        requires
            game_wf(*old(game_state)),
        ensures
            final(game_state)@ == spec_spawn_obstacles(old(game_state)@),
            game_wf(*final(game_state)),
    {
        let ghost g0 = old(game_state)@;
        if !game_state.obstacle_spawned {
            proof {
                assert(map_model_wf(cur_map(g0)));
            }
            let idx = game_state.current_map_index;
            spawn_obstacle(200_000, 200_000, &mut game_state.all_maps[idx].obstacles);
            spawn_obstacle(350_000, 200_000, &mut game_state.all_maps[idx].obstacles);
            crate::world::rebuild_adjacency(&mut game_state.all_maps[idx].obstacles);
            game_state.obstacle_spawned = true;
            proof {
                assert(game_state@.all_maps =~~= spec_spawn_obstacles(g0).all_maps);
                assert(game_state@ =~~= spec_spawn_obstacles(g0));
                assert forall|i: int| 0 <= i < game_state@.all_maps.len() implies map_model_wf(
                    #[trigger] game_state@.all_maps[i],
                ) by {
                    if i != idx {
                        assert(game_state@.all_maps[i] == g0.all_maps[i]);
                        assert(map_model_wf(g0.all_maps[i]));
                    }
                }
                assert(model_wf(game_state@));
            }
        }
    }
}

/// The system that spawns the two runtime traps once per game.
pub struct SpawnTraps;

/// The model with the current map's traps replaced.
pub open spec fn with_traps(g: GameModel, traps: Seq<Trap>) -> GameModel {
    GameModel {
        all_maps: g.all_maps.update(
            g.current_map_index as int,
            crate::structs::MapModel { traps, ..cur_map(g) },
        ),
        ..g
    }
}

/// Until the trigger has fired, two fresh traps appear at the fixed spawn
/// points; afterwards nothing changes.
pub open spec fn spec_spawn_traps(g: GameModel) -> GameModel {
    if !g.trap_spawned {
        let traps = cur_map(g).traps;
        let with_two = traps.push(spec_spawned_trap(216_000, 200_000, traps.len() as usize)).push(
            spec_spawned_trap(366_000, 200_000, (traps.len() + 1) as usize),
        );
        GameModel { trap_spawned: true, ..with_traps(g, with_two) }
    } else {
        g
    }
}

impl SpawnTraps {
    /// Fire the trap spawn trigger.
    #[verifier::rlimit(100)]
    #[verifier::spinoff_prover]
    pub fn execute(&self, game_state: &mut GameState)
        requires
            game_wf(*old(game_state)),
        ensures
            final(game_state)@ == spec_spawn_traps(old(game_state)@),
            game_wf(*final(game_state)),
    {
        let ghost g0 = old(game_state)@;
        if !game_state.trap_spawned {
            proof {
                assert(map_model_wf(cur_map(g0)));
            }
            let idx = game_state.current_map_index;
            spawn_trap(216_000, 200_000, &mut game_state.all_maps[idx].traps);
            spawn_trap(366_000, 200_000, &mut game_state.all_maps[idx].traps);
            game_state.trap_spawned = true;
            proof {
                assert(game_state@.all_maps =~~= spec_spawn_traps(g0).all_maps);
                assert(game_state@ =~~= spec_spawn_traps(g0));
                assert forall|i: int| 0 <= i < game_state@.all_maps.len() implies map_model_wf(
                    #[trigger] game_state@.all_maps[i],
                ) by {
                    if i != idx {
                        assert(game_state@.all_maps[i] == g0.all_maps[i]);
                        assert(map_model_wf(g0.all_maps[i]));
                    }
                }
                assert(model_wf(game_state@));
            }
        }
    }
}

/// The player's support flags agree with the authoritative state: on the
/// ground exactly when `OnGround` (then at the ground line and vertically at
/// rest), on an obstacle exactly when `OnObstacle`, and neither when airborne.
pub open spec fn support_coherent(p: Player) -> bool {
    &&& p.state == PlayerState::OnGround ==> (p.on_ground && !p.on_obstacle && p.y == GROUND
        && p.vy == 0)
    &&& p.state == PlayerState::OnObstacle ==> (p.on_obstacle && !p.on_ground)
    &&& p.state == PlayerState::InAir ==> (!p.on_ground && !p.on_obstacle)
}

/// Support-state exclusivity: at most one of the two support flags is set,
/// and both are clear only while airborne.
pub open spec fn support_exclusive(p: Player) -> bool {
    &&& !(p.on_ground && p.on_obstacle)
    &&& (!p.on_ground && !p.on_obstacle) ==> p.state == PlayerState::InAir
}

/// A coherent player is support-exclusive.
pub proof fn lemma_coherent_implies_exclusive(p: Player)
    requires
        support_coherent(p),
    ensures
        support_exclusive(p),
{
}

/// Support resolution always leaves the player coherent, whatever it was
/// handed.
pub proof fn lemma_resolution_coherent(p1: Player, hit: Option<Obstacle>)
    ensures
        support_coherent(crate::gravity::spec_resolve_support(p1, hit)),
{
}

/// Every system that runs after support resolution keeps the player
/// coherent, so the tick ends with the support flags exclusive.
pub proof fn lemma_tail_preserves_coherence(g: GameModel)
    requires
        support_coherent(g.player),
    ensures
        support_coherent(spec_trap_damage(g).player),
        support_coherent(spec_vertical_bounds(g).player),
        support_coherent(spec_horizontal_bounds(g).player),
        support_coherent(spec_check_game_over(g).player),
        support_coherent(spec_modify_position(g).player),
{
    assert(spec_modify_position(g).player.y == clip_add(g.player.y as int, g.player.vy as int));
}

/// The front half of one tick: spawn triggers, obstacle detection, gravity
/// and obstacle fall, and support resolution, in order.
pub open spec fn spec_tick_front(g: GameModel, m: SpriteMetrics) -> GameModel {
    spec_jump_obstacles(
        spec_apply_gravity(spec_collision_detection(spec_spawn_traps(spec_spawn_obstacles(g)), m)),
    )
}

/// The audio events of the front half, in order.
pub open spec fn spec_tick_front_events(g: GameModel, m: SpriteMetrics) -> Seq<SoundEvent> {
    let g3 = spec_collision_detection(spec_spawn_traps(spec_spawn_obstacles(g)), m);
    spec_apply_gravity_events(g3) + spec_jump_obstacles_events(spec_apply_gravity(g3))
}

/// The back half of one tick: trap damage, world bounds, the game-over
/// check, position integration, and the animation timers, in order.
pub open spec fn spec_tick_back(g: GameModel) -> GameModel {
    let g9 = spec_check_game_over(
        spec_horizontal_bounds(spec_vertical_bounds(spec_trap_damage(g))),
    );
    spec_toxic_frames(
        spec_lighthouse_frames(spec_ground_frames(spec_heart_frames(spec_modify_position(g9)))),
    )
}

/// Whether the back half runs into the game-over handler.
pub open spec fn spec_back_game_over(g: GameModel) -> bool {
    spec_horizontal_bounds(spec_vertical_bounds(spec_trap_damage(g))).player.game_over
}

/// One tick of the frame pipeline: the spawn triggers, obstacle detection,
/// gravity and obstacle fall, support resolution, trap damage, world bounds,
/// the game-over check, position integration, and the animation timers, in
/// exactly this order.
pub open spec fn spec_tick(g: GameModel, m: SpriteMetrics) -> GameModel {
    spec_tick_back(spec_tick_front(g, m))
}

/// The audio events one tick emits, in order.
pub open spec fn spec_tick_events(g: GameModel, m: SpriteMetrics) -> Seq<SoundEvent> {
    spec_tick_front_events(g, m)
}

/// Whether the tick runs into the game-over handler.
pub open spec fn spec_tick_game_over(g: GameModel, m: SpriteMetrics) -> bool {
    spec_back_game_over(spec_tick_front(g, m))
}

/// The front half of the scheduler.
#[verifier::rlimit(100)]
#[verifier::spinoff_prover]
fn tick_front(game_state: &mut GameState, events: &mut EventQueue, metrics: &SpriteMetrics)
    requires
        game_wf(*old(game_state)),
        metrics_wf(*metrics),
    ensures
        final(game_state)@ == spec_tick_front(old(game_state)@, *metrics),
        final(events).events@ == old(events).events@ + spec_tick_front_events(
            old(game_state)@,
            *metrics,
        ),
        support_coherent(final(game_state)@.player),
        game_wf(*final(game_state)),
{
    let ghost g0 = old(game_state)@;
    SpawnObstacles.execute(game_state);
    SpawnTraps.execute(game_state);
    CollisionDetection.execute(game_state, metrics);
    ApplyGravity.execute(game_state, events);
    let ghost g4 = game_state@;
    JumpingObstacles.execute(game_state, events);
    proof {
        lemma_resolution_coherent(
            crate::gravity::spec_jump_integrated(g4.player),
            crate::gravity::spec_support_hit(
                crate::gravity::spec_jump_integrated(g4.player),
                cur_map(g4).obstacles,
            ),
        );
        assert(support_coherent(game_state@.player));
        assert(final(events).events@ =~= old(events).events@ + spec_tick_front_events(
            g0,
            *metrics,
        ));
    }
}

/// The back half of the scheduler.
#[verifier::rlimit(100)]
#[verifier::spinoff_prover]
fn tick_back(game_state: &mut GameState) -> (game_over: bool)
    requires
        game_wf(*old(game_state)),
        support_coherent(old(game_state)@.player),
    ensures
        final(game_state)@ == spec_tick_back(old(game_state)@),
        game_over == spec_back_game_over(old(game_state)@),
        support_exclusive(final(game_state)@.player),
        game_wf(*final(game_state)),
{
    let ghost g5 = old(game_state)@;
    CheckTrapCollision.execute(game_state);
    proof {
        lemma_tail_preserves_coherence(g5);
    }
    VerticalBounds.execute(game_state);
    proof {
        lemma_tail_preserves_coherence(spec_trap_damage(g5));
    }
    HorizontalBounds.execute(game_state);
    proof {
        lemma_tail_preserves_coherence(spec_vertical_bounds(spec_trap_damage(g5)));
    }
    let game_over = CheckGameOver.execute(game_state);
    proof {
        lemma_tail_preserves_coherence(
            spec_horizontal_bounds(spec_vertical_bounds(spec_trap_damage(g5))),
        );
    }
    ModifyPosition.execute(game_state);
    proof {
        lemma_tail_preserves_coherence(
            spec_check_game_over(
                spec_horizontal_bounds(spec_vertical_bounds(spec_trap_damage(g5))),
            ),
        );
    }
    AlternateHeartSpriteFrames.execute(game_state);
    AlternateGroundSpriteFrames.execute(game_state);
    AlternateLightHouseSpriteFrames.execute(game_state);
    AlternateToxicTrapSpriteFrames.execute(game_state);
    proof {
        assert(support_coherent(game_state@.player));
        lemma_coherent_implies_exclusive(game_state@.player);
    }
    game_over
}

/// Run one tick of the core logic in the required system order; reports
/// whether the game-over sequence fired. The support flags are exclusive at
/// every tick boundary.
pub fn execute_core_logic(
    game_state: &mut GameState,
    events: &mut EventQueue,
    metrics: &SpriteMetrics,
) -> (game_over: bool)
    requires
        game_wf(*old(game_state)),
        metrics_wf(*metrics),
    ensures
        final(game_state)@ == spec_tick(old(game_state)@, *metrics),
        final(events).events@ == old(events).events@ + spec_tick_events(
            old(game_state)@,
            *metrics,
        ),
        game_over == spec_tick_game_over(old(game_state)@, *metrics),
        support_exclusive(final(game_state)@.player),
        game_wf(*final(game_state)),
{
    tick_front(game_state, events, metrics);
    tick_back(game_state)
}

} // verus!
