//! Simulation core of a side-scrolling platformer.
//!
//! The library advances the player's kinematics, resolves collisions against
//! destructible obstacles and static traps, runs the obstacle lifecycle
//! (damage, removal, gravity-driven collapse of stacked obstacles), and drives
//! the player's health / invincibility state machine and level transitions.
//!
//! All world quantities are integers measured in thousandths of a world unit,
//! so that the physics constants (gravity 0.5, acceleration 0.1, the 0.98 and
//! 0.95 damping ratios, the 0.1 velocity snap) are represented exactly.
//! Window plumbing, rasterization and audio playback live outside the library;
//! the core only records the audio events it emits into an [`EventQueue`].

mod arith;
mod collision;
mod constants;
mod core_logic;
mod physics;
mod events;
mod gravity;
mod input;
mod kick;
mod structs;
mod world;

pub use world::{
    adjacency_correct, box_of_tile, boxes_of_tiles, calculate_relative_x, extract_obstacles,
    adjacency_rebuild, has_left, has_over, has_right, has_under, last_left_from, last_over_from,
    last_right_from, last_under_from, left_adjacent, lemma_rebuild_correct, load_sounds,
    over_adjacent, spec_adjacency_of,
    rebuild_adjacency, right_adjacent, spec_relative_x, under_adjacent, x_overlap, y_overlap,
};
pub use arith::{bounded_add, clip_add};
pub use constants::{
    ACCELERATION, ACCEL_DAMP_NUM, ALMOST_GROUND_MAX, ALMOST_GROUND_MIN, CEILING, COORD_LIMIT,
    DAMP_DEN, DECAY_NUM, DOWN_SOUND, EXPLOSION_SOUND, FALL_HEAVY_SOUND, FALL_MILD_SOUND,
    FALL_VELOCITY_LIMIT, FIXED_PLAYER_X, FULL_HEALTH, GRAVITY, GROUND, GROUND_FRAME_MS,
    HEART_FRAME_MS, INITIAL_DURABILITY, JUMP_SOUND, JUMP_VELOCITY, KICK_BOX_SOUND,
    KICK_FRAME_DURATION, KICK_MARGIN_BOTTOM, KICK_MARGIN_TOP, KICK_SOUND, KNOCKBACK_OFFSET,
    KNOCKBACK_STEP, LIGHTHOUSE_FRAME_MS, LOWER_BOUND, MAX_VELOCITY, OBSTACLE_SNAP, SOUND_COUNT,
    SUBUNITS, SUPPORT_LEAD, SUPPORT_TRAIL, TERMINAL_FALL_VELOCITY, TILE_SIZE, TOXIC_FAST_FRAME_MS,
    TOXIC_SLOW_FRAME_MS, UPPER_BOUND, VELOCITY_EPSILON, WALK_SOUND_1, WALK_SOUND_2, WALK_SOUND_3,
    WALK_SOUND_4,
};
pub use gravity::{
    first_support, first_support_from, jump_obstacles, spec_apply_gravity,
    spec_apply_gravity_events, spec_falling_obstacles, spec_jump_integrated, spec_jump_obstacles,
    spec_jump_obstacles_events, spec_player_gravity, spec_support_resolution, support_above,
    support_candidate, support_landing, support_x_band, ApplyGravity, JumpingObstacles,

    any_landed, fall_step, insert_by_bottom, lemma_fall_advances, lemma_fall_step_wf,
    lemma_fall_stops_once,
    lemma_fall_velocity_monotone, obstacle_lands, sort_by_bottom, sort_obstacles_by_bottom,
};
pub use input::{
    jump_eligible, play_footstep_sound, spec_footstep, spec_footstep_events, spec_jump,
    spec_jump_events, spec_move_left, spec_move_left_events, spec_move_left_player,
    spec_move_right, spec_move_right_events, spec_move_right_player, spec_next_footstep,
    spec_footstep_sound, Jump, MoveLeft, MoveRight,
};
pub use kick::{
    advance_kick_frame, lemma_kick_durability, spec_advance_kick_frame,
    cascade_update, clear_removed_refs, lemma_cascade_marks_exactly_the_contained, span_contained,
    spec_kick, spec_kick_events, spec_kick_obstacles, spec_kick_player, spec_remove_obstacle, Kick,
};
pub use physics::{
    accel_iter, decay_iter, decrease_velocity, increase_velocity, lemma_accelerate_capped,
    lemma_decay_reaches_zero, lemma_decay_step, lemma_velocity_converges,
    lemma_velocity_never_exceeds_max, spec_accelerate, spec_decay,
};
pub use collision::{
    check_collision, first_kick_hit, first_kick_hit_from, first_trap_hit, first_trap_hit_from,
    kick_hit, spec_collision_detection, spec_kick_probe, spec_trap_damage, trap_overlap,
    CheckTrapCollision, CollisionDetection,
};
pub use core_logic::{
    execute_core_logic, lemma_coherent_implies_exclusive, lemma_resolution_coherent,
    spec_back_game_over, spec_tick_back, spec_tick_front, spec_tick_front_events,
    lemma_tail_preserves_coherence, spec_tick, spec_tick_events, spec_tick_game_over,
    support_coherent, support_exclusive,
    spawn_obstacle, spawn_stacked_obstacles, spawn_trap, spec_check_game_over, spec_stacked_obstacle, spec_ground_frames, spec_heart_frames,
    spec_horizontal_bounds, spec_knockback, spec_lighthouse_frames, spec_modify_position,
    spec_spawn_obstacles, spec_spawn_traps, spec_spawned_obstacle, spec_spawned_trap,
    spec_toxic_frames, spec_transition_bound, spec_vertical_bounds, with_traps,
    AlternateGroundSpriteFrames, AlternateHeartSpriteFrames, AlternateLightHouseSpriteFrames,
    AlternateToxicTrapSpriteFrames, CheckGameOver, HorizontalBounds, ModifyPosition,
    SpawnObstacles, SpawnTraps, VerticalBounds, COORD_LIMIT_MARGIN,
};
pub use events::{sound_event, EventQueue, SoundEvent};
pub use structs::{
    cur_map, map_model_wf, model_wf, with_obstacles, GameModel, MapModel,
    coord_ok, game_wf, map_wf, metrics_wf, obstacle_wf, player_wf, spec_new_player,
    spec_reset_player, trap_wf, Command, Direction, EnemyId, GameMap, GameState, Obstacle,
    ObstacleId, Player, PlayerState, SpriteMetrics, Tile, TileType, Trap, TrapId,
};
