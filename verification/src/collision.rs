//! Collision queries: the player-versus-obstacle kick/blocking test and the
//! player-versus-trap damage test.
//!
//! Both are pure first-match scans in insertion order over the active entries
//! of the current map's collections.

use vstd::prelude::*;

use crate::arith::clip_add;
use crate::constants::{
    KICK_MARGIN_BOTTOM, KICK_MARGIN_TOP, KNOCKBACK_OFFSET, SUPPORT_LEAD, SUPPORT_TRAIL,
};
use crate::structs::{
    map_model_wf,
    cur_map, game_wf, map_wf, metrics_wf, obstacle_wf, player_wf, trap_wf, Direction, GameModel,
    GameState, Obstacle, Player, SpriteMetrics, Trap,
};

verus! {

/// The x coordinate of the player's leading edge: a fixed fraction of the
/// currently selected sprite's width past the player's position (two fifths
/// while facing left, two thirds while facing right).
pub open spec fn spec_kick_probe(p: Player, m: SpriteMetrics, is_left: bool) -> int {
    if is_left {
        p.x + m.left_width * 2 / 5
    } else {
        p.x + m.right_width * 2 / 3
    }
}

/// Whether the kick/blocking probe at `probe_x` hits obstacle `o`: the probe
/// lies strictly inside the obstacle's horizontal span and the player's y
/// lies within the span extended by the fixed kick tolerances.
pub open spec fn kick_hit(o: Obstacle, probe_x: int, py: int) -> bool {
    &&& o.active
    &&& probe_x > o.x_left
    &&& probe_x < o.x_right
    &&& py >= o.y_top + KICK_MARGIN_TOP
    &&& py <= o.y_bottom + KICK_MARGIN_BOTTOM
}

/// Index of the first obstacle at or after `i` that the probe hits.
pub open spec fn first_kick_hit_from(obs: Seq<Obstacle>, probe_x: int, py: int, i: int) -> Option<
    int,
>
    decreases obs.len() - i,
{
    if i < 0 || i >= obs.len() {
        None
    } else if kick_hit(obs[i], probe_x, py) {
        Some(i)
    } else {
        first_kick_hit_from(obs, probe_x, py, i + 1)
    }
}

/// Index of the first obstacle the probe hits, in insertion order.
pub open spec fn first_kick_hit(obs: Seq<Obstacle>, probe_x: int, py: int) -> Option<int> {
    first_kick_hit_from(obs, probe_x, py, 0)
}

/// Direction-dependent leading-edge test of the player against every active
/// obstacle; returns whether anything was hit and the index of the first hit.
pub fn check_collision(
    obstacles: &Vec<Obstacle>,
    player: &Player,
    metrics: &SpriteMetrics,
    is_left: bool,
) -> (r: (bool, Option<usize>))
    requires
        forall|i: int| 0 <= i < obstacles@.len() ==> obstacle_wf(#[trigger] obstacles@[i]),
        player_wf(*player),
        metrics_wf(*metrics),
    ensures
        ({
            let probe = spec_kick_probe(*player, *metrics, is_left);
            match r.1 {
                Some(j) => r.0 == true && j < obstacles@.len() && first_kick_hit(
                    obstacles@,
                    probe,
                    player.y as int,
                ) == Some(j as int) && kick_hit(obstacles@[j as int], probe, player.y as int),
                None => r.0 == false && first_kick_hit(obstacles@, probe, player.y as int)
                    == None::<int>,
            }
        }),
{
    let probe: i64 = if is_left {
        player.x + metrics.left_width * 2 / 5
    } else {
        player.x + metrics.right_width * 2 / 3
    };
    assert(probe == spec_kick_probe(*player, *metrics, is_left));
    let ghost probe_spec = spec_kick_probe(*player, *metrics, is_left);
    let mut i: usize = 0;
    while i < obstacles.len()
        invariant
            0 <= i <= obstacles@.len(),
            probe == probe_spec,
            probe_spec == spec_kick_probe(*player, *metrics, is_left),
            forall|i0: int| 0 <= i0 < obstacles@.len() ==> obstacle_wf(#[trigger] obstacles@[i0]),
            player_wf(*player),
            first_kick_hit(obstacles@, probe_spec, player.y as int) == first_kick_hit_from(
                obstacles@,
                probe_spec,
                player.y as int,
                i as int,
            ),
        decreases obstacles@.len() - i,
    {
        let o = obstacles[i];
        if o.active && probe > o.x_left && probe < o.x_right && player.y >= o.y_top
            + KICK_MARGIN_TOP && player.y <= o.y_bottom + KICK_MARGIN_BOTTOM {
            proof {
                assert(kick_hit(obstacles@[i as int], probe_spec, player.y as int));
                assert(first_kick_hit_from(obstacles@, probe_spec, player.y as int, i as int)
                    == Some(i as int));
                assert(first_kick_hit(obstacles@, probe_spec, player.y as int) == Some(i as int));
                assert(((i as int) as usize) == i);
                assert(spec_kick_probe(*player, *metrics, is_left) == probe_spec);
            }
            return (true, Some(i));
        }
        i = i + 1;
    }
    (false, None)
}

/// Whether the player overlaps trap `t`: the horizontal probes lie inside the
/// trap's span and the player's y lies within the trap's vertical extent.
pub open spec fn trap_overlap(t: Trap, px: int, py: int) -> bool {
    &&& t.active
    &&& px + SUPPORT_LEAD > t.x_left
    &&& px + SUPPORT_TRAIL < t.x_right
    &&& py >= t.y_top
    &&& py <= t.y_bottom
}

/// Index of the first trap at or after `i` the player overlaps.
pub open spec fn first_trap_hit_from(traps: Seq<Trap>, px: int, py: int, i: int) -> Option<int>
    decreases traps.len() - i,
{
    if i < 0 || i >= traps.len() {
        None
    } else if trap_overlap(traps[i], px, py) {
        Some(i)
    } else {
        first_trap_hit_from(traps, px, py, i + 1)
    }
}

/// Index of the first trap the player overlaps, in insertion order.
pub open spec fn first_trap_hit(traps: Seq<Trap>, px: int, py: int) -> Option<int> {
    first_trap_hit_from(traps, px, py, 0)
}

/// The system that detects an obstacle ahead of the player and stops
/// horizontal movement against it.
pub struct CollisionDetection;

/// The game state after obstacle detection: on a hit the player's speed is
/// zeroed and `obstacle_detected` set; otherwise `obstacle_detected` is
/// cleared.
pub open spec fn spec_collision_detection(g: GameModel, m: SpriteMetrics) -> GameModel {
    let obs = cur_map(g).obstacles;
    let probe = spec_kick_probe(g.player, m, g.player.direction == Direction::Left);
    match first_kick_hit(obs, probe, g.player.y as int) {
        Some(_) => GameModel { player: Player { vx: 0, obstacle_detected: true, ..g.player }, ..g },
        None => GameModel { player: Player { obstacle_detected: false, ..g.player }, ..g },
    }
}

/// Write the outcome of obstacle detection into the player.
fn apply_detection(game_state: &mut GameState, hit: bool)
    requires
        game_wf(*old(game_state)),
    ensures
        hit ==> final(game_state)@ == (GameModel {
            player: Player { vx: 0, obstacle_detected: true, ..old(game_state)@.player },
            ..old(game_state)@
        }),
        !hit ==> final(game_state)@ == (GameModel {
            player: Player { obstacle_detected: false, ..old(game_state)@.player },
            ..old(game_state)@
        }),
        game_wf(*final(game_state)),
{
    if hit {
        game_state.player.vx = 0;
        game_state.player.obstacle_detected = true;
    } else {
        game_state.player.obstacle_detected = false;
    }
}

impl CollisionDetection {
    /// Run the detection against the current map.
    #[verifier::rlimit(100)]
    pub fn execute(&self, game_state: &mut GameState, metrics: &SpriteMetrics)
        requires
            game_wf(*old(game_state)),
            metrics_wf(*metrics),
        ensures
            final(game_state)@ == spec_collision_detection(old(game_state)@, *metrics),
            game_wf(*final(game_state)),
    {
        let ghost g0 = old(game_state)@;
        let idx = game_state.current_map_index;
        let is_left = game_state.player.direction == Direction::Left;
        proof {
            assert(map_model_wf(cur_map(g0)));
            assert(cur_map(g0).obstacles == old(game_state).all_maps@[idx as int].obstacles@);
        }
        let (hit, _id) = check_collision(
            &game_state.all_maps[idx].obstacles,
            &game_state.player,
            metrics,
            is_left,
        );
        apply_detection(game_state, hit);
    }
}

/// The system that damages the player on contact with an active trap.
pub struct CheckTrapCollision;

/// The game state after trap resolution: while not invincible, overlapping
/// the first active trap costs one health point, sets the damage-recovery
/// flag and invincibility, places the knockback target a fixed distance left
/// of that trap, and raises `game_over` once health reaches zero.
pub open spec fn spec_trap_damage(g: GameModel) -> GameModel {
    let traps = cur_map(g).traps;
    if g.player.invincible {
        g
    } else {
        match first_trap_hit(traps, g.player.x as int, g.player.y as int) {
            None => g,
            Some(i) => {
                let h = if g.player.health > 0 {
                    (g.player.health - 1) as u8
                } else {
                    0u8
                };
                GameModel {
                    player: Player {
                        health: h,
                        invincible: true,
                        game_over: g.player.game_over || h == 0,
                        ..g.player
                    },
                    designated_x: clip_add(
                        traps[i].x_left as int,
                        -KNOCKBACK_OFFSET as int,
                    ) as i64,
                    damage_taken: true,
                    ..g
                }
            },
        }
    }
}

/// First-match scan of the player position against the active traps.
fn find_trap_hit(traps: &Vec<Trap>, px: i64, py: i64) -> (r: Option<usize>)
    requires
        forall|i: int| 0 <= i < traps@.len() ==> trap_wf(#[trigger] traps@[i]),
        crate::structs::coord_ok(px),
        crate::structs::coord_ok(py),
    ensures
        match r {
            Some(j) => j < traps@.len() && first_trap_hit(traps@, px as int, py as int) == Some(
                j as int,
            ) && trap_overlap(traps@[j as int], px as int, py as int),
            None => first_trap_hit(traps@, px as int, py as int) == None::<int>,
        },
{
    let mut i: usize = 0;
    while i < traps.len()
        invariant
            0 <= i <= traps@.len(),
            forall|i0: int| 0 <= i0 < traps@.len() ==> trap_wf(#[trigger] traps@[i0]),
            crate::structs::coord_ok(px),
            crate::structs::coord_ok(py),
            first_trap_hit(traps@, px as int, py as int) == first_trap_hit_from(
                traps@,
                px as int,
                py as int,
                i as int,
            ),
        decreases traps@.len() - i,
    {
        let t = traps[i];
        if t.active && px + SUPPORT_LEAD > t.x_left && px + SUPPORT_TRAIL < t.x_right && py
            >= t.y_top && py <= t.y_bottom {
            return Some(i);
        }
        i = i + 1;
    }
    None
}

impl CheckTrapCollision {
    /// Run trap damage resolution against the current map.
    #[verifier::rlimit(100)]
    pub fn execute(&self, game_state: &mut GameState)
        requires
            game_wf(*old(game_state)),
        ensures
            final(game_state)@ == spec_trap_damage(old(game_state)@),
            game_wf(*final(game_state)),
    {
        if game_state.player.invincible {
            return ;
        }
        let idx = game_state.current_map_index;
        let px = game_state.player.x;
        let py = game_state.player.y;
        proof {
            assert(map_wf(old(game_state).all_maps@[old(game_state).current_map_index as int]));
        }
        let found = find_trap_hit(&game_state.all_maps[idx].traps, px, py);
        match found {
            None => {},
            Some(j) => {
                let trap_x_left = game_state.all_maps[idx].traps[j].x_left;
                let h: u8 = if game_state.player.health > 0 {
                    game_state.player.health - 1
                } else {
                    0
                };
                game_state.player.health = h;
                game_state.player.invincible = true;
                if h == 0 {
                    game_state.player.game_over = true;
                }
                game_state.designated_x = crate::arith::bounded_add(trap_x_left, -KNOCKBACK_OFFSET);
                game_state.damage_taken = true;
            },
        }
    }
}

} // verus!
