//! Gravity: the player's vertical acceleration, the free fall of collapsing
//! obstacles, and the support-state machine that resolves whether the player
//! is on the ground, on an obstacle, or airborne.

use vstd::prelude::*;

use crate::arith::{bounded_add, clip_add};
use crate::constants::{
    ALMOST_GROUND_MAX, ALMOST_GROUND_MIN, COORD_LIMIT, DOWN_SOUND, FALL_MILD_SOUND, GRAVITY,
    GROUND, OBSTACLE_SNAP, SUPPORT_LEAD, SUPPORT_TRAIL, TERMINAL_FALL_VELOCITY,
};
use crate::events::{sound_event, EventQueue, SoundEvent};
use crate::structs::{
    cur_map, game_wf, map_model_wf, model_wf, obstacle_wf, player_wf, with_obstacles, GameModel,
    GameState, Obstacle,
    Player, PlayerState,
};

verus! {

/// One gravity tick of a single obstacle: an active falling obstacle at or
/// past the terminal velocity simply stops falling; below it, the box moves
/// down by three gravity units and its fall velocity grows by the same amount
/// (the movement is withheld only at the world cap, which play never
/// reaches). Anything else is untouched.
pub open spec fn fall_step(o: Obstacle) -> Obstacle {
    if o.active && o.falling {
        if o.velocity_y >= TERMINAL_FALL_VELOCITY {
            Obstacle { falling: false, ..o }
        } else if o.y_bottom + 3 * GRAVITY <= COORD_LIMIT {
            Obstacle {
                y_top: (o.y_top + 3 * GRAVITY) as i64,
                y_bottom: (o.y_bottom + 3 * GRAVITY) as i64,
                velocity_y: (o.velocity_y + 3 * GRAVITY) as i64,
                ..o
            }
        } else {
            Obstacle { velocity_y: (o.velocity_y + 3 * GRAVITY) as i64, ..o }
        }
    } else {
        o
    }
}

/// Whether obstacle `o` comes to rest this tick.
pub open spec fn obstacle_lands(o: Obstacle) -> bool {
    o.active && o.falling && o.velocity_y >= TERMINAL_FALL_VELOCITY
}

/// Whether any obstacle in `s` comes to rest this tick.
pub open spec fn any_landed(s: Seq<Obstacle>) -> bool {
    exists|i: int| 0 <= i < s.len() && obstacle_lands(#[trigger] s[i])
}

/// A falling obstacle's velocity never decreases under a gravity tick.
pub proof fn lemma_fall_velocity_monotone(o: Obstacle)
    requires
        obstacle_wf(o),
    ensures
        fall_step(o).velocity_y >= o.velocity_y,
{
}

/// Once the terminal velocity is reached, the next gravity tick clears
/// `falling` exactly once, and the step is idempotent afterward: the obstacle
/// never moves nor accelerates again.
pub proof fn lemma_fall_stops_once(o: Obstacle)
    requires
        obstacle_wf(o),
        o.active,
        o.falling,
        o.velocity_y >= TERMINAL_FALL_VELOCITY,
    ensures
        fall_step(o).falling == false,
        fall_step(o) == (Obstacle { falling: false, ..o }),
        fall_step(fall_step(o)) == fall_step(o),
{
}

/// Below the terminal velocity a falling obstacle advances by exactly three
/// gravity units: the fall velocity gains that amount and — within the world
/// coordinate cap, which play never leaves — both edges of the box move down
/// by the same amount, so the box keeps its height and keeps falling.
pub proof fn lemma_fall_advances(o: Obstacle)
    requires
        obstacle_wf(o),
        o.active,
        o.falling,
        o.velocity_y < TERMINAL_FALL_VELOCITY,
    ensures
        fall_step(o).velocity_y == o.velocity_y + 3 * GRAVITY,
        fall_step(o).falling,
        fall_step(o).active,
        o.y_bottom + 3 * GRAVITY <= COORD_LIMIT ==> fall_step(o).y_top == o.y_top + 3 * GRAVITY
            && fall_step(o).y_bottom == o.y_bottom + 3 * GRAVITY,
        fall_step(o).y_bottom - fall_step(o).y_top == o.y_bottom - o.y_top,
{
}

/// A gravity tick keeps an obstacle well formed.
pub proof fn lemma_fall_step_wf(o: Obstacle)
    requires
        obstacle_wf(o),
    ensures
        obstacle_wf(fall_step(o)),
{
}

/// Insert `o` into the sequence `s` (assumed sorted by `y_bottom`) in front
/// of the first element with a strictly larger `y_bottom`: the insertion step
/// of a stable sort.
pub open spec fn insert_by_bottom(o: Obstacle, s: Seq<Obstacle>) -> Seq<Obstacle>
    decreases s.len(),
{
    if s.len() == 0 {
        seq![o]
    } else if o.y_bottom < s[0].y_bottom {
        seq![o] + s
    } else {
        seq![s[0]] + insert_by_bottom(o, s.drop_first())
    }
}

/// Stable insertion sort of obstacles by `y_bottom`, ascending; equal bottoms
/// keep their relative order.
pub open spec fn sort_by_bottom(s: Seq<Obstacle>) -> Seq<Obstacle>
    decreases s.len(),
{
    if s.len() == 0 {
        Seq::empty()
    } else {
        insert_by_bottom(s.last(), sort_by_bottom(s.drop_last()))
    }
}

/// Inserting at the position found by a linear scan matches the recursive
/// insertion: splitting `s` at the first index whose `y_bottom` exceeds
/// `o.y_bottom` and putting `o` between the halves is `insert_by_bottom`.
proof fn lemma_insert_by_bottom_at(o: Obstacle, s: Seq<Obstacle>, i: int)
    requires
        0 <= i <= s.len(),
        forall|j: int| 0 <= j < i ==> #[trigger] s[j].y_bottom <= o.y_bottom,
        i < s.len() ==> o.y_bottom < s[i].y_bottom,
    ensures
        insert_by_bottom(o, s) == s.subrange(0, i).push(o) + s.subrange(i, s.len() as int),
    decreases i,
{
    if i == 0 {
        if s.len() == 0 {
            assert(insert_by_bottom(o, s) =~= s.subrange(0, 0).push(o) + s.subrange(0, 0));
        } else {
            assert(insert_by_bottom(o, s) =~= s.subrange(0, 0).push(o) + s.subrange(
                0,
                s.len() as int,
            ));
        }
    } else {
        assert(s[0].y_bottom <= o.y_bottom);
        lemma_insert_by_bottom_at(o, s.drop_first(), i - 1);
        assert(insert_by_bottom(o, s) =~= s.subrange(0, i).push(o) + s.subrange(
            i,
            s.len() as int,
        ));
    }
}

/// Sort the obstacle collection by `y_bottom`, ascending and stable; runs
/// after an obstacle lands so that stacking order stays consistent with the
/// adjacency semantics.
pub fn sort_obstacles_by_bottom(obstacles: &mut Vec<Obstacle>)
    requires
        forall|i: int| 0 <= i < old(obstacles)@.len() ==> obstacle_wf(
            #[trigger] old(obstacles)@[i],
        ),
    ensures
        final(obstacles)@ == sort_by_bottom(old(obstacles)@),
        forall|i: int| 0 <= i < final(obstacles)@.len() ==> obstacle_wf(
            #[trigger] final(obstacles)@[i],
        ),
{
    let mut result: Vec<Obstacle> = Vec::new();
    let mut k: usize = 0;
    while k < obstacles.len()
        invariant
            k <= obstacles@.len(),
            *obstacles == *old(obstacles),
            forall|i: int| 0 <= i < obstacles@.len() ==> obstacle_wf(#[trigger] obstacles@[i]),
            result@ == sort_by_bottom(obstacles@.subrange(0, k as int)),
            result@.len() == k,
            forall|i: int| 0 <= i < result@.len() ==> obstacle_wf(#[trigger] result@[i]),
        decreases obstacles@.len() - k,
    {
        let o = obstacles[k];
        let mut i: usize = 0;
        while i < result.len() && result[i].y_bottom <= o.y_bottom
            invariant
                i <= result@.len(),
                forall|j: int| 0 <= j < i ==> #[trigger] result@[j].y_bottom <= o.y_bottom,
            decreases result@.len() - i,
        {
            i = i + 1;
        }
        let ghost prev = result@;
        proof {
            lemma_insert_by_bottom_at(o, prev, i as int);
        }
        result.insert(i, o);
        proof {
            assert(result@ =~= prev.subrange(0, i as int).push(o) + prev.subrange(
                i as int,
                prev.len() as int,
            ));
            assert(result@ == insert_by_bottom(o, prev));
            assert(obstacles@.subrange(0, k as int + 1).drop_last() =~= obstacles@.subrange(
                0,
                k as int,
            ));
            assert(obstacles@.subrange(0, k as int + 1).last() == obstacles@[k as int]);
            assert(result@ == sort_by_bottom(obstacles@.subrange(0, k as int + 1)));
            assert forall|i2: int| 0 <= i2 < result@.len() implies obstacle_wf(
                #[trigger] result@[i2],
            ) by {
                if i2 < i {
                    assert(result@[i2] == prev[i2]);
                } else if i2 == i {
                    assert(result@[i2] == o);
                } else {
                    assert(result@[i2] == prev[i2 - 1]);
                }
            }
        }
        k = k + 1;
    }
    proof {
        assert(obstacles@.subrange(0, obstacles@.len() as int) =~= obstacles@);
    }
    *obstacles = result;
}

/// Apply one gravity tick to every obstacle, reporting whether any came to
/// rest.
fn fall_step_all(obstacles: &mut Vec<Obstacle>) -> (landed: bool)
    requires
        forall|i: int| 0 <= i < old(obstacles)@.len() ==> obstacle_wf(
            #[trigger] old(obstacles)@[i],
        ),
    ensures
        final(obstacles)@ == old(obstacles)@.map_values(|o: Obstacle| fall_step(o)),
        landed == any_landed(old(obstacles)@),
        forall|i: int| 0 <= i < final(obstacles)@.len() ==> obstacle_wf(
            #[trigger] final(obstacles)@[i],
        ),
{
    let mut landed = false;
    let mut j: usize = 0;
    while j < obstacles.len()
        invariant
            j <= obstacles@.len(),
            obstacles@.len() == old(obstacles)@.len(),
            forall|i: int| 0 <= i < old(obstacles)@.len() ==> obstacle_wf(
                #[trigger] old(obstacles)@[i],
            ),
            forall|i: int| j <= i < obstacles@.len() ==> obstacles@[i] == old(obstacles)@[i],
            forall|i: int| 0 <= i < j ==> obstacles@[i] == fall_step(#[trigger] old(
                obstacles,
            )@[i]),
            landed == exists|i: int|
                0 <= i < j && obstacle_lands(#[trigger] old(obstacles)@[i]),
        decreases obstacles@.len() - j,
    {
        let o = obstacles[j];
        proof {
            assert(o == old(obstacles)@[j as int]);
            lemma_fall_step_wf(o);
        }
        if o.active && o.falling {
            if o.velocity_y >= TERMINAL_FALL_VELOCITY {
                let mut o2 = o;
                o2.falling = false;
                obstacles.set(j, o2);
                landed = true;
            } else {
                let mut o2 = o;
                if o.y_bottom + 3 * GRAVITY <= COORD_LIMIT {
                    o2.y_top = o.y_top + 3 * GRAVITY;
                    o2.y_bottom = o.y_bottom + 3 * GRAVITY;
                }
                o2.velocity_y = o.velocity_y + 3 * GRAVITY;
                obstacles.set(j, o2);
            }
        }
        j = j + 1;
    }
    proof {
        assert(obstacles@ =~= old(obstacles)@.map_values(|o: Obstacle| fall_step(o)));
    }
    landed
}

/// The system that integrates gravity: the player's vertical velocity while
/// airborne, and the free fall of collapsing obstacles.
pub struct ApplyGravity;

/// The player after one gravity tick: vertical velocity grows by [`GRAVITY`]
/// while neither the ground nor an obstacle supports the player.
pub open spec fn spec_player_gravity(g: GameModel) -> GameModel {
    if !g.player.on_ground && !g.player.on_obstacle {
        GameModel {
            player: Player {
                vy: clip_add(g.player.vy as int, GRAVITY as int) as i64,
                ..g.player
            },
            ..g
        }
    } else {
        g
    }
}

/// The current map after one gravity tick of its obstacles: every obstacle
/// steps by [`fall_step`], and when one came to rest this tick the collection
/// is re-sorted by `y_bottom`, ascending.
pub open spec fn spec_falling_obstacles(g: GameModel) -> GameModel {
    let stepped = cur_map(g).obstacles.map_values(|o: Obstacle| fall_step(o));
    if any_landed(cur_map(g).obstacles) {
        with_obstacles(g, sort_by_bottom(stepped))
    } else {
        with_obstacles(g, stepped)
    }
}

/// The whole gravity system: player gravity first, then obstacle free fall.
pub open spec fn spec_apply_gravity(g: GameModel) -> GameModel {
    spec_falling_obstacles(spec_player_gravity(g))
}

/// The audio events gravity emits: one landing thud when an obstacle comes
/// to rest.
pub open spec fn spec_apply_gravity_events(g: GameModel) -> Seq<SoundEvent> {
    if any_landed(cur_map(g).obstacles) {
        seq![sound_event(DOWN_SOUND, 3000)]
    } else {
        Seq::empty()
    }
}

/// The obstacle half of the gravity system: step every obstacle of the
/// current map, and on a landing emit the thud and re-sort the collection.
fn falling_obstacles_system(game_state: &mut GameState, events: &mut EventQueue)
    requires
        game_wf(*old(game_state)),
    ensures
        final(game_state)@ == spec_falling_obstacles(old(game_state)@),
        final(events).events@ == old(events).events@ + spec_apply_gravity_events(
            old(game_state)@,
        ),
        game_wf(*final(game_state)),
{
    let ghost g0 = old(game_state)@;
    let ghost target = spec_falling_obstacles(old(game_state)@);
    proof {
        assert(map_model_wf(cur_map(g0)));
        assert(cur_map(g0).obstacles == old(game_state).all_maps@[old(
            game_state,
        ).current_map_index as int].obstacles@);
    }
    let idx = game_state.current_map_index;
    let landed = fall_step_all(&mut game_state.all_maps[idx].obstacles);
    if landed {
        events.push(DOWN_SOUND, 3000);
        sort_obstacles_by_bottom(&mut game_state.all_maps[idx].obstacles);
    }
    proof {
        assert(game_state@.all_maps =~~= target.all_maps);
        assert(game_state@.player == target.player);
        assert(game_state@ =~~= target);
        assert(map_model_wf(cur_map(game_state@)));
        assert forall|i: int| 0 <= i < game_state@.all_maps.len() implies map_model_wf(
            #[trigger] game_state@.all_maps[i],
        ) by {
            if i != idx {
                assert(game_state@.all_maps[i] == g0.all_maps[i]);
                assert(map_model_wf(g0.all_maps[i]));
            }
        }
    }
}

impl ApplyGravity {
    /// Run the gravity tick on the player and the current map's obstacles.
    pub fn execute(&self, game_state: &mut GameState, events: &mut EventQueue)
        requires
            game_wf(*old(game_state)),
        ensures
            final(game_state)@ == spec_apply_gravity(old(game_state)@),
            final(events).events@ == old(events).events@ + spec_apply_gravity_events(
                old(game_state)@,
            ),
            game_wf(*final(game_state)),
    {
        let ghost g0 = old(game_state)@;
        if !game_state.player.on_ground && !game_state.player.on_obstacle {
            let vy = bounded_add(game_state.player.vy, GRAVITY);
            game_state.player.vy = vy;
        }
        let ghost g1 = spec_player_gravity(g0);
        proof {
            assert(game_state@ == g1);
            assert(cur_map(g1).obstacles == cur_map(g0).obstacles);
            assert(spec_apply_gravity_events(g1) == spec_apply_gravity_events(g0));
        }
        falling_obstacles_system(game_state, events);
    }
}

/// Whether the player's horizontal probes overlap obstacle `o`'s span.
pub open spec fn support_x_band(o: Obstacle, px: int) -> bool {
    &&& px + SUPPORT_LEAD > o.x_left
    &&& px + SUPPORT_TRAIL < o.x_right
}

/// The player stands on `o`: y within the box and `o` is a topmost obstacle.
pub open spec fn support_landing(o: Obstacle, py: int) -> bool {
    &&& py <= o.y_bottom
    &&& py >= o.y_top
    &&& o.is_top_obstacle
}

/// The player is above `o` without touching it.
pub open spec fn support_above(o: Obstacle, py: int) -> bool {
    py < o.y_top
}

/// Whether obstacle `o` takes part in support resolution for the player at
/// (`px`, `py`): active, horizontally overlapping, and either carrying or
/// below the player.
pub open spec fn support_candidate(o: Obstacle, px: int, py: int) -> bool {
    &&& o.active
    &&& support_x_band(o, px)
    &&& (support_landing(o, py) || support_above(o, py))
}

/// Index of the first support candidate at or after `i`.
pub open spec fn first_support_from(obs: Seq<Obstacle>, px: int, py: int, i: int) -> Option<int>
    decreases obs.len() - i,
{
    if i < 0 || i >= obs.len() {
        None
    } else if support_candidate(obs[i], px, py) {
        Some(i)
    } else {
        first_support_from(obs, px, py, i + 1)
    }
}

/// Index of the first support candidate, in insertion order.
pub open spec fn first_support(obs: Seq<Obstacle>, px: int, py: int) -> Option<int> {
    first_support_from(obs, px, py, 0)
}

/// The player after the jump integration at the head of support resolution:
/// while a jump or fall is in progress, y advances by the vertical velocity;
/// the animation band flag follows the new y.
pub open spec fn spec_jump_integrated(p: Player) -> Player {
    let y1 = if p.is_jumping {
        clip_add(p.y as int, p.vy as int) as i64
    } else {
        p.y
    };
    Player { y: y1, almost_ground: ALMOST_GROUND_MIN <= y1 <= ALMOST_GROUND_MAX, ..p }
}

/// The integrated player resolved against the support candidate it hit (if
/// any), in order of precedence: landing on (or holding to) a topmost
/// obstacle, hanging above an obstacle, resting on the ground line, or
/// airborne.
pub open spec fn spec_resolve_support(p1: Player, hit: Option<Obstacle>) -> Player {
    match hit {
        Some(o) => {
            if support_landing(o, p1.y as int) {
                if p1.state != PlayerState::OnObstacle {
                    Player {
                        y: clip_add(o.y_bottom as int, -(OBSTACLE_SNAP as int)) as i64,
                        on_obstacle: true,
                        on_ground: false,
                        is_jumping: false,
                        state: PlayerState::OnObstacle,
                        vy: 0,
                        ..p1
                    }
                } else {
                    Player { on_obstacle: true, on_ground: false, ..p1 }
                }
            } else {
                Player {
                    on_ground: false,
                    on_obstacle: false,
                    above_obstacle: true,
                    state: PlayerState::InAir,
                    is_jumping: true,
                    ..p1
                }
            }
        },
        None => {
            if p1.y >= GROUND {
                Player {
                    y: GROUND,
                    vy: 0,
                    on_ground: true,
                    on_obstacle: false,
                    is_jumping: false,
                    state: PlayerState::OnGround,
                    ..p1
                }
            } else {
                Player {
                    on_ground: false,
                    on_obstacle: false,
                    above_obstacle: false,
                    state: PlayerState::InAir,
                    is_jumping: true,
                    ..p1
                }
            }
        },
    }
}

/// The audio events of the resolution step: a mild landing sound when the
/// player reaches the ground out of the air.
pub open spec fn spec_resolve_support_events(p1: Player, hit: Option<Obstacle>) -> Seq<
    SoundEvent,
> {
    match hit {
        Some(_) => Seq::empty(),
        None => if p1.y >= GROUND && p1.state == PlayerState::InAir {
            seq![sound_event(FALL_MILD_SOUND, 2500)]
        } else {
            Seq::empty()
        },
    }
}

/// The support candidate the integrated player hits first, if any.
pub open spec fn spec_support_hit(p1: Player, obs: Seq<Obstacle>) -> Option<Obstacle> {
    match first_support(obs, p1.x as int, p1.y as int) {
        Some(i) => Some(obs[i]),
        None => None,
    }
}

/// The player after support resolution against the obstacles.
pub open spec fn spec_support_resolution(p: Player, obs: Seq<Obstacle>) -> Player {
    let p1 = spec_jump_integrated(p);
    spec_resolve_support(p1, spec_support_hit(p1, obs))
}

/// The game state after support resolution: only the player changes.
pub open spec fn spec_jump_obstacles(g: GameModel) -> GameModel {
    GameModel { player: spec_support_resolution(g.player, cur_map(g).obstacles), ..g }
}

/// The audio events of support resolution.
pub open spec fn spec_jump_obstacles_events(g: GameModel) -> Seq<SoundEvent> {
    let p1 = spec_jump_integrated(g.player);
    spec_resolve_support_events(p1, spec_support_hit(p1, cur_map(g).obstacles))
}

/// First-match scan for a support candidate.
fn find_support_hit(obstacles: &Vec<Obstacle>, px: i64, py: i64) -> (r: Option<usize>)
    requires
        forall|i: int| 0 <= i < obstacles@.len() ==> obstacle_wf(#[trigger] obstacles@[i]),
        crate::structs::coord_ok(px),
        crate::structs::coord_ok(py),
    ensures
        match r {
            Some(j) => j < obstacles@.len() && first_support(obstacles@, px as int, py as int)
                == Some(j as int) && support_candidate(obstacles@[j as int], px as int, py as int),
            None => first_support(obstacles@, px as int, py as int) == None::<int>,
        },
{
    let mut i: usize = 0;
    while i < obstacles.len()
        invariant
            i <= obstacles@.len(),
            forall|i0: int| 0 <= i0 < obstacles@.len() ==> obstacle_wf(#[trigger] obstacles@[i0]),
            crate::structs::coord_ok(px),
            crate::structs::coord_ok(py),
            first_support(obstacles@, px as int, py as int) == first_support_from(
                obstacles@,
                px as int,
                py as int,
                i as int,
            ),
        decreases obstacles@.len() - i,
    {
        let o = obstacles[i];
        if o.active && px + SUPPORT_LEAD > o.x_left && px + SUPPORT_TRAIL < o.x_right && ((py
            <= o.y_bottom && py >= o.y_top && o.is_top_obstacle) || py < o.y_top) {
            return Some(i);
        }
        i = i + 1;
    }
    None
}

/// The system wrapper around [`jump_obstacles`].
pub struct JumpingObstacles;

impl JumpingObstacles {
    /// Run support resolution.
    pub fn execute(&self, game_state: &mut GameState, events: &mut EventQueue)
        requires
            game_wf(*old(game_state)),
        ensures
            final(game_state)@ == spec_jump_obstacles(old(game_state)@),
            final(events).events@ == old(events).events@ + spec_jump_obstacles_events(
                old(game_state)@,
            ),
            game_wf(*final(game_state)),
    {
        jump_obstacles(game_state, events);
    }
}

/// Apply the resolution outcome to the already-integrated player.
#[verifier::rlimit(100)]
fn resolve_support(player: &mut Player, hit: Option<Obstacle>, events: &mut EventQueue)
    requires
        player_wf(*old(player)),
        match hit {
            Some(o) => obstacle_wf(o),
            None => true,
        },
    ensures
        *final(player) == spec_resolve_support(*old(player), hit),
        final(events).events@ == old(events).events@ + spec_resolve_support_events(
            *old(player),
            hit,
        ),
        player_wf(*final(player)),
{
    match hit {
        Some(o) => {
            if player.y <= o.y_bottom && player.y >= o.y_top && o.is_top_obstacle {
                if player.state != PlayerState::OnObstacle {
                    let snapped = bounded_add(o.y_bottom, -OBSTACLE_SNAP);
                    player.y = snapped;
                    player.on_obstacle = true;
                    player.on_ground = false;
                    player.is_jumping = false;
                    player.state = PlayerState::OnObstacle;
                    player.vy = 0;
                } else {
                    player.on_obstacle = true;
                    player.on_ground = false;
                }
            } else {
                player.on_ground = false;
                player.on_obstacle = false;
                player.above_obstacle = true;
                player.state = PlayerState::InAir;
                player.is_jumping = true;
            }
        },
        None => {
            if player.y >= GROUND {
                let was_in_air = player.state == PlayerState::InAir;
                player.y = GROUND;
                player.vy = 0;
                player.on_ground = true;
                player.on_obstacle = false;
                player.is_jumping = false;
                if was_in_air {
                    events.push(FALL_MILD_SOUND, 2500);
                }
                player.state = PlayerState::OnGround;
            } else {
                player.on_ground = false;
                player.on_obstacle = false;
                player.above_obstacle = false;
                player.state = PlayerState::InAir;
                player.is_jumping = true;
            }
        },
    }
}

/// Support resolution, run once per tick: integrate the jump, update the
/// almost-on-the-ground band, then resolve the player's support state against
/// the current map's obstacles in order of precedence.
/// The jump integration and animation-band update at the head of support
/// resolution.
fn integrate_jump(player: &mut Player)
    requires
        player_wf(*old(player)),
    ensures
        *final(player) == spec_jump_integrated(*old(player)),
        player_wf(*final(player)),
{
    if player.is_jumping {
        let y1 = bounded_add(player.y, player.vy);
        player.y = y1;
    }
    if player.y >= ALMOST_GROUND_MIN && player.y <= ALMOST_GROUND_MAX {
        player.almost_ground = true;
    } else {
        player.almost_ground = false;
    }
}

#[verifier::rlimit(100)]
pub fn jump_obstacles(game_state: &mut GameState, events: &mut EventQueue)
    requires
        game_wf(*old(game_state)),
    ensures
        final(game_state)@ == spec_jump_obstacles(old(game_state)@),
        final(events).events@ == old(events).events@ + spec_jump_obstacles_events(
            old(game_state)@,
        ),
        game_wf(*final(game_state)),
{
    let ghost g0 = old(game_state)@;
    let ghost target = spec_jump_obstacles(old(game_state)@);

    integrate_jump(&mut game_state.player);
    proof {
        assert(game_state.player == spec_jump_integrated(g0.player));
        assert(map_model_wf(cur_map(g0)));
        assert(cur_map(g0).obstacles == old(game_state).all_maps@[old(
            game_state,
        ).current_map_index as int].obstacles@);
    }
    let idx = game_state.current_map_index;
    let found = find_support_hit(
        &game_state.all_maps[idx].obstacles,
        game_state.player.x,
        game_state.player.y,
    );
    let hit: Option<Obstacle> = match found {
        Some(j) => Some(game_state.all_maps[idx].obstacles[j]),
        None => None,
    };
    proof {
        assert(hit == spec_support_hit(spec_jump_integrated(g0.player), cur_map(g0).obstacles));
        match hit {
            Some(o) => {
                assert(obstacle_wf(o));
            },
            None => {},
        }
    }
    resolve_support(&mut game_state.player, hit, events);
    proof {
        assert(game_state@.player == target.player);
        assert(game_state@.all_maps == g0.all_maps);
        assert(game_state@ == target);
        assert(model_wf(game_state@));
    }
}

} // verus!
