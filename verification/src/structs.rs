//! The entity store: player, obstacles, traps, maps and the aggregate game
//! state, together with the well-formedness predicates that every system
//! preserves.
//!
//! Coordinates are integers in thousandths of a world unit; y grows downward.

use vstd::prelude::*;

use crate::constants::{
    COORD_LIMIT, FALL_VELOCITY_LIMIT, FULL_HEALTH, GROUND, INITIAL_DURABILITY,
    KICK_FRAME_DURATION, MAX_VELOCITY,
};

verus! {

/// Which way the player is facing.
#[derive(Debug, PartialEq, Eq, Clone, Copy, Structural)]
pub enum Direction {
    /// Facing the positive x direction.
    Right,
    /// Facing the negative x direction.
    Left,
}

/// The player's vertical relationship to the world.
#[derive(Debug, PartialEq, Eq, Clone, Copy, Structural)]
pub enum PlayerState {
    /// Standing on the ground line.
    OnGround,
    /// Standing on top of an obstacle.
    OnObstacle,
    /// Neither: airborne.
    InAir,
}

/// The abstract per-tick commands the input collaborator can deliver.
#[derive(Debug, PartialEq, Eq, Clone, Copy, Structural)]
pub enum Command {
    /// Hold to walk left.
    MoveLeft,
    /// Hold to walk right.
    MoveRight,
    /// Start a jump.
    Jump,
    /// Kick the obstacle ahead.
    Kick,
}

/// Stable identity of an obstacle for the lifetime of its map.
#[derive(Clone, Copy, Debug, PartialEq, Eq, Hash, Structural)]
pub struct ObstacleId(pub usize);

/// Stable identity of an enemy.
#[derive(Clone, Copy, Debug, PartialEq, Eq, Hash, Structural)]
pub struct EnemyId(pub usize);

/// Stable identity of a trap.
#[derive(Clone, Copy, Debug, PartialEq, Eq, Hash, Structural)]
pub struct TrapId(pub usize);

/// A destructible, gravity-affected box the player can stand on or kick.
#[derive(Clone, Copy, Debug, PartialEq)]
pub struct Obstacle {
    /// Identity, unique within the map.
    pub id: ObstacleId,
    /// Left edge (lower x).
    pub x_left: i64,
    /// Right edge (higher x).
    pub x_right: i64,
    /// Top edge (lower y; y grows downward).
    pub y_top: i64,
    /// Bottom edge (higher y).
    pub y_bottom: i64,
    /// Downward speed while falling.
    pub velocity_y: i64,
    /// Whether the box is in free fall.
    pub falling: bool,
    /// False once the box is logically removed.
    pub active: bool,
    /// Kicks left before the box is destroyed.
    pub durability: u8,
    /// No active obstacle sits directly under this one.
    pub is_bottom_obstacle: bool,
    /// No active obstacle sits directly over this one.
    pub is_top_obstacle: bool,
    /// No active obstacle touches this one on its left.
    pub is_leftmost_obstacle: bool,
    /// No active obstacle touches this one on its right.
    pub is_rightmost_obstacle: bool,
    /// An obstacle touching this one on the left, if any.
    pub left_obstacle: Option<ObstacleId>,
    /// An obstacle touching this one on the right, if any.
    pub right_obstacle: Option<ObstacleId>,
    /// An obstacle resting directly on top of this one, if any.
    pub over_obstacle: Option<ObstacleId>,
    /// An obstacle directly beneath this one, if any.
    pub under_obstacle: Option<ObstacleId>,
}

/// A static, indestructible hazard that damages the player on contact.
#[derive(Clone, Copy, Debug, PartialEq)]
pub struct Trap {
    /// Identity, unique within the map.
    pub id: TrapId,
    /// Left edge.
    pub x_left: i64,
    /// Right edge.
    pub x_right: i64,
    /// Top edge.
    pub y_top: i64,
    /// Bottom edge.
    pub y_bottom: i64,
    /// Whether the trap currently damages the player.
    pub active: bool,
}

/// What a grid cell of a map holds.
#[derive(Debug, PartialEq, Eq, Clone, Copy, Structural)]
pub enum TileType {
    /// A destructible box.
    Obstacle,
    /// Walkable ground decoration.
    Grass,
    /// Empty sky.
    Sky,
    /// Anything the map file did not name.
    Unknown,
}

/// One cell of the static tile grid a map is built from.
#[derive(Debug, Clone, Copy, PartialEq)]
pub struct Tile {
    /// What the cell holds.
    pub tile_type: TileType,
    /// Left edge.
    pub x_left: i64,
    /// Right edge.
    pub x_right: i64,
    /// Top edge.
    pub y_top: i64,
    /// Bottom edge.
    pub y_bottom: i64,
}

/// The player: position, velocities, support state, animation counters and
/// the health / invincibility machine.
#[derive(Clone, Copy, Debug, PartialEq)]
pub struct Player {
    /// Horizontal position.
    pub x: i64,
    /// Vertical position; larger is lower on screen.
    pub y: i64,
    /// Horizontal speed (always non-negative; `direction` gives the sign).
    pub vx: i64,
    /// Vertical velocity; positive is downward.
    pub vy: i64,
    /// Which way the player faces.
    pub direction: Direction,
    /// Authoritative support state.
    pub state: PlayerState,
    /// Derived flag: standing on the ground line.
    pub on_ground: bool,
    /// Derived flag: standing on an obstacle.
    pub on_obstacle: bool,
    /// Animation flag: y lies in the band just above the ground.
    pub almost_ground: bool,
    /// Airborne above an obstacle without touching it.
    pub above_obstacle: bool,
    /// A jump or fall is in progress.
    pub is_jumping: bool,
    /// An obstacle blocks movement in the facing direction.
    pub obstacle_detected: bool,
    /// Damage is ignored while set.
    pub invincible: bool,
    /// A kick animation is in progress.
    pub is_kicking: bool,
    /// Health reached zero.
    pub game_over: bool,
    /// Hearts left, `0 ..= 3`.
    pub health: u8,
    /// Current kick animation frame.
    pub kick_frame: usize,
    /// Ticks the current kick frame has been held.
    pub kick_frame_timer: usize,
    /// Current walking-left sprite index, cycling `4 ..= 7`.
    pub left_increment: usize,
    /// Current walking-right sprite index, cycling `0 ..= 3`.
    pub right_increment: usize,
    /// Ticks since the walking-left sprite last advanced.
    pub left_increment_frame_count: usize,
    /// Ticks since the walking-right sprite last advanced.
    pub right_increment_frame_count: usize,
    /// The last command received, if any.
    pub last_key: Option<Command>,
}

/// One level: its static dimensions, its mutable obstacle and trap
/// collections, and where the player enters and leaves it.
pub struct GameMap {
    /// Identity of the map.
    pub id: usize,
    /// Width of the map in pixels.
    pub width: usize,
    /// Height of the map in pixels.
    pub height: usize,
    /// The destructible boxes of this map.
    pub obstacles: Vec<Obstacle>,
    /// The hazards of this map.
    pub traps: Vec<Trap>,
    /// Where the player starts on this map.
    pub starting_x: i64,
    /// Reaching this x moves the game to the next map; the default upper
    /// bound applies when absent.
    pub transition_x: Option<i64>,
}

/// Everything the simulation owns: the player, all maps, the current-map
/// index, global animation timers, and the damage-recovery state.
pub struct GameState {
    /// The player.
    pub player: Player,
    /// Every map, in play order.
    pub all_maps: Vec<GameMap>,
    /// Index of the map being played.
    pub current_map_index: usize,
    /// Frame of the game-over animation the host is showing.
    pub game_over_index: usize,
    /// Which footstep sample plays next, cycling `0 ..= 4`.
    pub footstep_index: usize,
    /// Whether a footstep may be emitted this tick.
    pub footstep_active: bool,
    /// Heart sprite frame, alternating `0` and `1`.
    pub heart_sprite_frame_index: usize,
    /// Ground sprite frame, alternating `0` and `1`.
    pub ground_sprite_frame_index: usize,
    /// Lighthouse sprite frame, cycling `0 ..= 3`.
    pub lighthouse_sprite_frame_index: usize,
    /// Mountain backdrop frame.
    pub mountains_sprite_frame_index: usize,
    /// Toxic trap sprite frame, cycling `0 ..= 5`.
    pub toxic_trap_sprite_frame_index: usize,
    /// The wall clock the host last reported, in milliseconds.
    pub clock_ms: u64,
    /// When the heart sprite last advanced.
    pub last_heart_sprite_frame_index_change: u64,
    /// When the ground sprite last advanced.
    pub last_ground_sprite_frame_index_change: u64,
    /// When the lighthouse sprite last advanced.
    pub last_light_house_sprite_frame_index_change: u64,
    /// When the toxic trap sprite last advanced.
    pub last_toxic_sprite_frame_index_change: u64,
    /// The runtime obstacles have been spawned.
    pub obstacle_spawned: bool,
    /// The runtime traps have been spawned.
    pub trap_spawned: bool,
    /// Where damage recovery walks the player back to.
    pub designated_x: i64,
    /// Damage recovery is in progress.
    pub damage_taken: bool,
}

/// Widths of the currently selected walking sprites, in thousandths of a
/// world unit; the rendering collaborator supplies them each tick. The kick
/// and blocking probes place the player's leading edge at a fixed fraction of
/// the selected width.
#[derive(Clone, Copy, Debug, PartialEq)]
pub struct SpriteMetrics {
    /// Width of the sprite selected while facing left.
    pub left_width: i64,
    /// Width of the sprite selected while facing right.
    pub right_width: i64,
}

/// The mathematical model of a [`GameMap`]: the same record with the mutable
/// collections abstracted to sequences.
pub ghost struct MapModel {
    /// Identity of the map.
    pub id: usize,
    /// Width of the map in pixels.
    pub width: usize,
    /// Height of the map in pixels.
    pub height: usize,
    /// The obstacles, in insertion order.
    pub obstacles: Seq<Obstacle>,
    /// The traps, in insertion order.
    pub traps: Seq<Trap>,
    /// Where the player starts on this map.
    pub starting_x: i64,
    /// Reaching this x moves the game to the next map.
    pub transition_x: Option<i64>,
}

/// The mathematical model of a [`GameState`]; every system contract is a
/// function from this model to this model.
pub ghost struct GameModel {
    /// The player.
    pub player: Player,
    /// Every map, in play order.
    pub all_maps: Seq<MapModel>,
    /// Index of the map being played.
    pub current_map_index: usize,
    /// Frame of the game-over animation the host is showing.
    pub game_over_index: usize,
    /// Which footstep sample plays next.
    pub footstep_index: usize,
    /// Whether a footstep may be emitted this tick.
    pub footstep_active: bool,
    /// Heart sprite frame.
    pub heart_sprite_frame_index: usize,
    /// Ground sprite frame.
    pub ground_sprite_frame_index: usize,
    /// Lighthouse sprite frame.
    pub lighthouse_sprite_frame_index: usize,
    /// Mountain backdrop frame.
    pub mountains_sprite_frame_index: usize,
    /// Toxic trap sprite frame.
    pub toxic_trap_sprite_frame_index: usize,
    /// The wall clock the host last reported.
    pub clock_ms: u64,
    /// When the heart sprite last advanced.
    pub last_heart_sprite_frame_index_change: u64,
    /// When the ground sprite last advanced.
    pub last_ground_sprite_frame_index_change: u64,
    /// When the lighthouse sprite last advanced.
    pub last_light_house_sprite_frame_index_change: u64,
    /// When the toxic trap sprite last advanced.
    pub last_toxic_sprite_frame_index_change: u64,
    /// The runtime obstacles have been spawned.
    pub obstacle_spawned: bool,
    /// The runtime traps have been spawned.
    pub trap_spawned: bool,
    /// Where damage recovery walks the player back to.
    pub designated_x: i64,
    /// Damage recovery is in progress.
    pub damage_taken: bool,
}

impl View for GameMap {
    type V = MapModel;

    open spec fn view(&self) -> MapModel {
        MapModel {
            id: self.id,
            width: self.width,
            height: self.height,
            obstacles: self.obstacles@,
            traps: self.traps@,
            starting_x: self.starting_x,
            transition_x: self.transition_x,
        }
    }
}

impl View for GameState {
    type V = GameModel;

    open spec fn view(&self) -> GameModel {
        GameModel {
            player: self.player,
            all_maps: self.all_maps@.map_values(|m: GameMap| m@),
            current_map_index: self.current_map_index,
            game_over_index: self.game_over_index,
            footstep_index: self.footstep_index,
            footstep_active: self.footstep_active,
            heart_sprite_frame_index: self.heart_sprite_frame_index,
            ground_sprite_frame_index: self.ground_sprite_frame_index,
            lighthouse_sprite_frame_index: self.lighthouse_sprite_frame_index,
            mountains_sprite_frame_index: self.mountains_sprite_frame_index,
            toxic_trap_sprite_frame_index: self.toxic_trap_sprite_frame_index,
            clock_ms: self.clock_ms,
            last_heart_sprite_frame_index_change: self.last_heart_sprite_frame_index_change,
            last_ground_sprite_frame_index_change: self.last_ground_sprite_frame_index_change,
            last_light_house_sprite_frame_index_change: self
                .last_light_house_sprite_frame_index_change,
            last_toxic_sprite_frame_index_change: self.last_toxic_sprite_frame_index_change,
            obstacle_spawned: self.obstacle_spawned,
            trap_spawned: self.trap_spawned,
            designated_x: self.designated_x,
            damage_taken: self.damage_taken,
        }
    }
}

/// The model's current map.
pub open spec fn cur_map(g: GameModel) -> MapModel {
    g.all_maps[g.current_map_index as int]
}

/// The model with the current map's obstacles replaced.
pub open spec fn with_obstacles(g: GameModel, obstacles: Seq<Obstacle>) -> GameModel {
    GameModel {
        all_maps: g.all_maps.update(
            g.current_map_index as int,
            MapModel { obstacles, ..cur_map(g) },
        ),
        ..g
    }
}

/// A coordinate within the world range.
pub open spec fn coord_ok(v: i64) -> bool {
    -COORD_LIMIT <= v <= COORD_LIMIT
}

/// Well-formed obstacle: a proper box within the world range, bounded fall
/// velocity and durability.
pub open spec fn obstacle_wf(o: Obstacle) -> bool {
    &&& coord_ok(o.x_left)
    &&& coord_ok(o.x_right)
    &&& coord_ok(o.y_top)
    &&& coord_ok(o.y_bottom)
    &&& o.x_left < o.x_right
    &&& o.y_top < o.y_bottom
    &&& 0 <= o.velocity_y <= FALL_VELOCITY_LIMIT
    &&& o.durability <= INITIAL_DURABILITY
}

/// Well-formed trap: a proper box within the world range.
pub open spec fn trap_wf(t: Trap) -> bool {
    &&& coord_ok(t.x_left)
    &&& coord_ok(t.x_right)
    &&& coord_ok(t.y_top)
    &&& coord_ok(t.y_bottom)
    &&& t.x_left < t.x_right
    &&& t.y_top < t.y_bottom
}

/// Well-formed player: coordinates in range, speed within the cap, health and
/// animation counters within their cycles.
pub open spec fn player_wf(p: Player) -> bool {
    &&& coord_ok(p.x)
    &&& coord_ok(p.y)
    &&& coord_ok(p.vy)
    &&& 0 <= p.vx <= MAX_VELOCITY
    &&& p.health <= FULL_HEALTH
    &&& 4 <= p.left_increment <= 7
    &&& p.right_increment <= 3
    &&& p.left_increment_frame_count <= 2
    &&& p.right_increment_frame_count <= 2
    &&& p.kick_frame <= 1
    &&& p.kick_frame_timer < KICK_FRAME_DURATION
}

/// Well-formed map model: every obstacle and trap well formed, entry point in
/// range.
pub open spec fn map_model_wf(m: MapModel) -> bool {
    &&& forall|i: int| 0 <= i < m.obstacles.len() ==> obstacle_wf(#[trigger] m.obstacles[i])
    &&& forall|i: int| 0 <= i < m.traps.len() ==> trap_wf(#[trigger] m.traps[i])
    &&& coord_ok(m.starting_x)
    &&& match m.transition_x {
        Some(t) => coord_ok(t),
        None => true,
    }
}

/// Well-formed map.
pub open spec fn map_wf(m: GameMap) -> bool {
    map_model_wf(m@)
}

/// Well-formed game model: the invariant every system preserves.
pub open spec fn model_wf(g: GameModel) -> bool {
    &&& player_wf(g.player)
    &&& g.current_map_index < g.all_maps.len()
    &&& forall|i: int| 0 <= i < g.all_maps.len() ==> map_model_wf(#[trigger] g.all_maps[i])
    &&& g.footstep_index <= 4
    &&& g.heart_sprite_frame_index <= 1
    &&& g.ground_sprite_frame_index <= 1
    &&& g.lighthouse_sprite_frame_index <= 3
    &&& g.toxic_trap_sprite_frame_index <= 5
    &&& coord_ok(g.designated_x)
    &&& g.last_heart_sprite_frame_index_change <= g.clock_ms
    &&& g.last_ground_sprite_frame_index_change <= g.clock_ms
    &&& g.last_light_house_sprite_frame_index_change <= g.clock_ms
    &&& g.last_toxic_sprite_frame_index_change <= g.clock_ms
}

/// Well-formed game state.
pub open spec fn game_wf(gs: GameState) -> bool {
    model_wf(gs@)
}

/// Well-formed sprite metrics: non-negative widths within the world range.
pub open spec fn metrics_wf(m: SpriteMetrics) -> bool {
    &&& 0 <= m.left_width <= COORD_LIMIT
    &&& 0 <= m.right_width <= COORD_LIMIT
}

/// The state a fresh player spawns (and is reset) to.
pub open spec fn spec_new_player(x: i64, y: i64) -> Player {
    Player {
        x,
        y,
        vx: 0,
        vy: 0,
        direction: Direction::Right,
        state: PlayerState::OnGround,
        on_ground: true,
        on_obstacle: false,
        almost_ground: false,
        above_obstacle: false,
        is_jumping: false,
        obstacle_detected: false,
        invincible: false,
        is_kicking: false,
        game_over: false,
        health: FULL_HEALTH,
        kick_frame: 0,
        kick_frame_timer: 0,
        left_increment: 4,
        right_increment: 0,
        left_increment_frame_count: 0,
        right_increment_frame_count: 0,
        last_key: None,
    }
}

impl Player {
    /// A fresh player resting on the ground at the given position.
    pub fn new(x: i64, y: i64) -> (p: Player)
        requires
            coord_ok(x),
            coord_ok(y),
        ensures
            p == spec_new_player(x, y),
            player_wf(p),
    {
        Player {
            x,
            y,
            vx: 0,
            vy: 0,
            direction: Direction::Right,
            state: PlayerState::OnGround,
            on_ground: true,
            on_obstacle: false,
            almost_ground: false,
            above_obstacle: false,
            is_jumping: false,
            obstacle_detected: false,
            invincible: false,
            is_kicking: false,
            game_over: false,
            health: FULL_HEALTH,
            kick_frame: 0,
            kick_frame_timer: 0,
            left_increment: 4,
            right_increment: 0,
            left_increment_frame_count: 0,
            right_increment_frame_count: 0,
            last_key: None,
        }
    }
}

impl GameMap {
    /// An empty map with the given identity, dimensions and bounds.
    pub fn new(id: usize, width: usize, height: usize, starting_x: i64, transition_x: Option<i64>) -> (m: GameMap)
        requires
            coord_ok(starting_x),
            match transition_x {
                Some(t) => coord_ok(t),
                None => true,
            },
        ensures
            map_wf(m),
            m.id == id,
            m.width == width,
            m.height == height,
            m.obstacles@ == Seq::<Obstacle>::empty(),
            m.traps@ == Seq::<Trap>::empty(),
            m.starting_x == starting_x,
            m.transition_x == transition_x,
    {
        GameMap {
            id,
            width,
            height,
            obstacles: Vec::new(),
            traps: Vec::new(),
            starting_x,
            transition_x,
        }
    }
}

impl GameState {
    /// A fresh game state owning the given player and maps, with every timer,
    /// counter and flag at its initial value.
    pub fn new(player: Player, all_maps: Vec<GameMap>) -> (gs: GameState)
        requires
            player_wf(player),
            all_maps@.len() > 0,
            forall|i: int| 0 <= i < all_maps@.len() ==> map_wf(#[trigger] all_maps@[i]),
        ensures
            game_wf(gs),
            gs.player == player,
            gs.all_maps@ == all_maps@,
            gs.current_map_index == 0,
            gs.game_over_index == 0,
            gs.footstep_index == 0,
            gs.footstep_active == false,
            gs.heart_sprite_frame_index == 0,
            gs.ground_sprite_frame_index == 0,
            gs.lighthouse_sprite_frame_index == 0,
            gs.mountains_sprite_frame_index == 0,
            gs.toxic_trap_sprite_frame_index == 0,
            gs.clock_ms == 0,
            gs.last_heart_sprite_frame_index_change == 0,
            gs.last_ground_sprite_frame_index_change == 0,
            gs.last_light_house_sprite_frame_index_change == 0,
            gs.last_toxic_sprite_frame_index_change == 0,
            gs.obstacle_spawned == false,
            gs.trap_spawned == false,
            gs.designated_x == 0,
            gs.damage_taken == false,
    {
        GameState {
            player,
            all_maps,
            current_map_index: 0,
            game_over_index: 0,
            footstep_index: 0,
            footstep_active: false,
            heart_sprite_frame_index: 0,
            ground_sprite_frame_index: 0,
            lighthouse_sprite_frame_index: 0,
            mountains_sprite_frame_index: 0,
            toxic_trap_sprite_frame_index: 0,
            clock_ms: 0,
            last_heart_sprite_frame_index_change: 0,
            last_ground_sprite_frame_index_change: 0,
            last_light_house_sprite_frame_index_change: 0,
            last_toxic_sprite_frame_index_change: 0,
            obstacle_spawned: false,
            trap_spawned: false,
            designated_x: 0,
            damage_taken: false,
        }
    }

    /// Report the host's wall clock, which the animation timers read. The
    /// clock never moves backward.
    pub fn advance_clock(&mut self, now_ms: u64)
        requires
            old(self).clock_ms <= now_ms,
        ensures
            *final(self) == (GameState { clock_ms: now_ms, ..*old(self) }),
    {
        self.clock_ms = now_ms;
    }
}

/// The player reset performed when the game-over sequence completes.
pub open spec fn spec_reset_player() -> Player {
    spec_new_player(0, GROUND)
}

} // verus!
