//! The kick command and the destructible-obstacle lifecycle: damage,
//! removal, and the cascade that sends obstacles stacked over a removed box
//! into free fall.

use vstd::prelude::*;

use crate::collision::{check_collision, first_kick_hit, spec_kick_probe};
use crate::constants::{KICK_BOX_SOUND, KICK_FRAME_DURATION, KICK_SOUND};
use crate::events::{sound_event, EventQueue, SoundEvent};
use crate::structs::{
    cur_map, game_wf, map_model_wf, metrics_wf, model_wf, obstacle_wf, player_wf, with_obstacles,
    Direction, GameModel, GameState, Obstacle, ObstacleId, Player, SpriteMetrics,
};

verus! {

/// Whether `o`'s horizontal span is fully contained in `removed`'s span:
/// the reading of "directly stacked above or below it".
pub open spec fn span_contained(o: Obstacle, removed: Obstacle) -> bool {
    o.x_left >= removed.x_left && o.x_right <= removed.x_right
}

/// `o` with any adjacency reference to the obstacle `id` cleared, so that no
/// reference dangles after a removal.
pub open spec fn clear_removed_refs(o: Obstacle, id: ObstacleId) -> Obstacle {
    Obstacle {
        left_obstacle: if o.left_obstacle == Some(id) {
            None
        } else {
            o.left_obstacle
        },
        right_obstacle: if o.right_obstacle == Some(id) {
            None
        } else {
            o.right_obstacle
        },
        over_obstacle: if o.over_obstacle == Some(id) {
            None
        } else {
            o.over_obstacle
        },
        under_obstacle: if o.under_obstacle == Some(id) {
            None
        } else {
            o.under_obstacle
        },
        ..o
    }
}

/// The cascade update of one bystander obstacle when `removed` goes away: an
/// active obstacle whose span is fully contained in `removed`'s span starts
/// falling from rest; every obstacle sheds its references to the removed id.
pub open spec fn cascade_update(o: Obstacle, removed: Obstacle) -> Obstacle {
    let o1 = if o.active && span_contained(o, removed) {
        Obstacle { falling: true, velocity_y: 0, ..o }
    } else {
        o
    };
    clear_removed_refs(o1, removed.id)
}

/// The obstacle collection after removing the obstacle at `idx`: it is
/// deactivated in place, and every other obstacle takes the cascade update.
/// An already-inactive obstacle is left alone.
pub open spec fn spec_remove_obstacle(obs: Seq<Obstacle>, idx: int) -> Seq<Obstacle> {
    if !(0 <= idx < obs.len()) || !obs[idx].active {
        obs
    } else {
        let removed = obs[idx];
        Seq::new(
            obs.len(),
            |j: int|
                if j == idx {
                    Obstacle { active: false, ..removed }
                } else {
                    cascade_update(obs[j], removed)
                },
        )
    }
}

/// Removing an active obstacle deactivates exactly it, marks every other
/// active obstacle whose span its span contains as falling from rest, and
/// leaves everything else about every other obstacle unchanged apart from
/// the scrubbed references to the removed id.
pub proof fn lemma_cascade_marks_exactly_the_contained(obs: Seq<Obstacle>, idx: int)
    requires
        0 <= idx < obs.len(),
        obs[idx].active,
    ensures
        spec_remove_obstacle(obs, idx).len() == obs.len(),
        spec_remove_obstacle(obs, idx)[idx] == (Obstacle { active: false, ..obs[idx] }),
        forall|j: int|
            0 <= j < obs.len() && j != idx && obs[j].active && span_contained(
                obs[j],
                obs[idx],
            ) ==> {
                let r = #[trigger] spec_remove_obstacle(obs, idx)[j];
                r.falling == true && r.velocity_y == 0 && r.active == obs[j].active
                    && r.durability == obs[j].durability && r.x_left == obs[j].x_left
                    && r.x_right == obs[j].x_right && r.y_top == obs[j].y_top && r.y_bottom
                    == obs[j].y_bottom
            },
        forall|j: int|
            0 <= j < obs.len() && j != idx && !(obs[j].active && span_contained(
                obs[j],
                obs[idx],
            )) ==> {
                let r = #[trigger] spec_remove_obstacle(obs, idx)[j];
                r == clear_removed_refs(obs[j], obs[idx].id)
            },
{
}

/// The command that kicks the obstacle ahead of the player.
pub struct Kick;

/// The player as the kick animation starts.
pub open spec fn spec_kick_player(p: Player) -> Player {
    Player { is_kicking: true, kick_frame: 0, kick_frame_timer: 0, ..p }
}

/// The obstacle collection after the kick lands on index `i`: positive
/// durability absorbs the kick, exhausted durability removes the obstacle and
/// starts the cascade.
pub open spec fn spec_kick_obstacles(obs: Seq<Obstacle>, i: int) -> Seq<Obstacle> {
    if obs[i].durability > 0 {
        obs.update(i, Obstacle { durability: (obs[i].durability - 1) as u8, ..obs[i] })
    } else {
        spec_remove_obstacle(obs, i)
    }
}

/// The game state after a kick: the kick animation starts, and the first
/// obstacle the leading-edge probe hits (if any) takes the damage.
pub open spec fn spec_kick(g: GameModel, m: SpriteMetrics) -> GameModel {
    let g1 = GameModel { player: spec_kick_player(g.player), ..g };
    let obs = cur_map(g).obstacles;
    let probe = spec_kick_probe(g.player, m, g.player.direction == Direction::Left);
    match first_kick_hit(obs, probe, g.player.y as int) {
        None => g1,
        Some(i) => with_obstacles(g1, spec_kick_obstacles(obs, i)),
    }
}

/// The events of a kick: a whiff sound on a miss; an impact sound on a hit,
/// and a second impact sound when the hit removes the obstacle.
pub open spec fn spec_kick_events(g: GameModel, m: SpriteMetrics) -> Seq<SoundEvent> {
    let obs = cur_map(g).obstacles;
    let probe = spec_kick_probe(g.player, m, g.player.direction == Direction::Left);
    match first_kick_hit(obs, probe, g.player.y as int) {
        None => seq![sound_event(KICK_SOUND, 1000)],
        Some(i) => if obs[i].durability > 0 {
            seq![sound_event(KICK_BOX_SOUND, 1000)]
        } else {
            seq![sound_event(KICK_BOX_SOUND, 1000), sound_event(KICK_BOX_SOUND, 1000)]
        },
    }
}

/// Apply [`cascade_update`] to every obstacle and deactivate the one at
/// `idx`, matching [`spec_remove_obstacle`].
fn apply_cascade(obstacles: &mut Vec<Obstacle>, idx: usize)
    requires
        idx < old(obstacles)@.len(),
        old(obstacles)@[idx as int].active,
        forall|i: int| 0 <= i < old(obstacles)@.len() ==> obstacle_wf(
            #[trigger] old(obstacles)@[i],
        ),
    ensures
        final(obstacles)@ == spec_remove_obstacle(old(obstacles)@, idx as int),
        forall|i: int| 0 <= i < final(obstacles)@.len() ==> obstacle_wf(
            #[trigger] final(obstacles)@[i],
        ),
{
    let removed = obstacles[idx];
    let mut j: usize = 0;
    while j < obstacles.len()
        invariant
            j <= obstacles@.len(),
            idx < obstacles@.len(),
            obstacles@.len() == old(obstacles)@.len(),
            removed == old(obstacles)@[idx as int],
            removed.active,
            forall|i: int| 0 <= i < old(obstacles)@.len() ==> obstacle_wf(
                #[trigger] old(obstacles)@[i],
            ),
            forall|i: int| j <= i < obstacles@.len() ==> obstacles@[i] == old(obstacles)@[i],
            forall|i: int|
                0 <= i < j ==> obstacles@[i] == spec_remove_obstacle(
                    old(obstacles)@,
                    idx as int,
                )[i],
        decreases obstacles@.len() - j,
    {
        let o = obstacles[j];
        if j == idx {
            let mut o2 = o;
            o2.active = false;
            obstacles.set(j, o2);
        } else {
            let mut o2 = o;
            if o.active && o.x_left >= removed.x_left && o.x_right <= removed.x_right {
                o2.falling = true;
                o2.velocity_y = 0;
            }
            o2.left_obstacle = clear_ref(o2.left_obstacle, removed.id);
            o2.right_obstacle = clear_ref(o2.right_obstacle, removed.id);
            o2.over_obstacle = clear_ref(o2.over_obstacle, removed.id);
            o2.under_obstacle = clear_ref(o2.under_obstacle, removed.id);
            obstacles.set(j, o2);
            proof {
                assert(obstacles@[j as int] == cascade_update(
                    old(obstacles)@[j as int],
                    removed,
                ));
            }
        }
        j = j + 1;
    }
    proof {
        assert(obstacles@ =~= spec_remove_obstacle(old(obstacles)@, idx as int));
    }
}

/// Drop an adjacency reference when it names the removed obstacle.
fn clear_ref(r: Option<ObstacleId>, removed: ObstacleId) -> (out: Option<ObstacleId>)
    ensures
        out == (if r == Some(removed) {
            None::<ObstacleId>
        } else {
            r
        }),
{
    match r {
        Some(id) => {
            if id.0 == removed.0 {
                None
            } else {
                Some(id)
            }
        },
        None => None,
    }
}

/// Start the kick animation on the player.
fn start_kick(player: &mut Player)
    ensures
        *final(player) == spec_kick_player(*old(player)),
{
    player.is_kicking = true;
    player.kick_frame = 0;
    player.kick_frame_timer = 0;
}

impl Kick {
    /// Damage the obstacle at `idx`: positive durability absorbs one kick,
    /// exhausted durability removes the obstacle and starts the cascade.
    fn damage_obstacle(
        game_state: &mut GameState,
        events: &mut EventQueue,
        idx: usize,
    )
        requires
            game_wf(*old(game_state)),
            idx < cur_map(old(game_state)@).obstacles.len(),
            cur_map(old(game_state)@).obstacles[idx as int].active,
        ensures
            final(game_state)@ == with_obstacles(
                old(game_state)@,
                spec_kick_obstacles(cur_map(old(game_state)@).obstacles, idx as int),
            ),
            final(events).events@ == old(events).events@ + (if cur_map(
                old(game_state)@,
            ).obstacles[idx as int].durability > 0 {
                Seq::<SoundEvent>::empty()
            } else {
                seq![sound_event(KICK_BOX_SOUND, 1000)]
            }),
            game_wf(*final(game_state)),
    {
        let ghost g0 = old(game_state)@;
        let map_idx = game_state.current_map_index;
        proof {
            assert(map_model_wf(cur_map(g0)));
            assert(cur_map(g0).obstacles == old(game_state).all_maps@[map_idx as int].obstacles@);
        }
        let durability = game_state.all_maps[map_idx].obstacles[idx].durability;
        if durability > 0 {
            let mut o = game_state.all_maps[map_idx].obstacles[idx];
            o.durability = durability - 1;
            game_state.all_maps[map_idx].obstacles.set(idx, o);
        } else {
            events.push(KICK_BOX_SOUND, 1000);
            apply_cascade(&mut game_state.all_maps[map_idx].obstacles, idx);
        }
        proof {
            let target = with_obstacles(g0, spec_kick_obstacles(cur_map(g0).obstacles, idx as int));
            assert(game_state@.all_maps =~~= target.all_maps);
            assert(game_state@ =~~= target);
            assert forall|i: int| 0 <= i < game_state@.all_maps.len() implies map_model_wf(
                #[trigger] game_state@.all_maps[i],
            ) by {
                if i != map_idx {
                    assert(game_state@.all_maps[i] == g0.all_maps[i]);
                    assert(map_model_wf(g0.all_maps[i]));
                } else {
                    assert forall|k: int|
                        0 <= k < game_state@.all_maps[i].obstacles.len() implies obstacle_wf(
                        #[trigger] game_state@.all_maps[i].obstacles[k],
                    ) by {
                        if cur_map(g0).obstacles[idx as int].durability > 0 {
                            assert(obstacle_wf(cur_map(g0).obstacles[k]));
                        }
                    }
                }
            }
            assert(model_wf(game_state@));
        }
    }

    /// One kick command: start the kick animation, probe ahead of the
    /// player, and damage the first obstacle hit; a miss only whiffs.
    #[verifier::rlimit(100)]
    pub fn execute(&self, game_state: &mut GameState, events: &mut EventQueue, metrics: &SpriteMetrics)
        requires
            game_wf(*old(game_state)),
            metrics_wf(*metrics),
        ensures
            final(game_state)@ == spec_kick(old(game_state)@, *metrics),
            final(events).events@ == old(events).events@ + spec_kick_events(
                old(game_state)@,
                *metrics,
            ),
            game_wf(*final(game_state)),
    {
        let ghost g0 = old(game_state)@;
        start_kick(&mut game_state.player);
        let ghost g1 = GameModel { player: spec_kick_player(g0.player), ..g0 };
        let map_idx = game_state.current_map_index;
        let is_left = game_state.player.direction == Direction::Left;
        let ghost probe = spec_kick_probe(g0.player, *metrics, is_left);
        proof {
            assert(game_state@ == g1);
            assert(map_model_wf(cur_map(g0)));
            assert(cur_map(g0).obstacles == old(game_state).all_maps@[map_idx as int].obstacles@);
            assert(spec_kick_probe(game_state.player, *metrics, is_left) == probe);
        }
        let (collision, id) = check_collision(
            &game_state.all_maps[map_idx].obstacles,
            &game_state.player,
            metrics,
            is_left,
        );
        if collision {
            events.push(KICK_BOX_SOUND, 1000);
            match id {
                Some(j) => {
                    proof {
                        assert(first_kick_hit(cur_map(g0).obstacles, probe, g0.player.y as int)
                            == Some(j as int));
                        assert(cur_map(g1).obstacles == cur_map(g0).obstacles);
                    }
                    Self::damage_obstacle(game_state, events, j);
                    proof {
                        assert(game_state@ == with_obstacles(
                            g1,
                            spec_kick_obstacles(cur_map(g0).obstacles, j as int),
                        ));
                        assert(game_state@ =~~= spec_kick(g0, *metrics));
                        assert(final(events).events@ == old(events).events@ + spec_kick_events(
                            g0,
                            *metrics,
                        ));
                    }
                },
                None => {},
            }
        } else {
            events.push(KICK_SOUND, 1000);
            proof {
                assert(game_state@ == spec_kick(g0, *metrics));
                assert(final(events).events@ == old(events).events@ + spec_kick_events(
                    g0,
                    *metrics,
                ));
            }
        }
    }
}

/// The player after one tick of the kick animation: while a kick is in
/// progress the frame timer advances; every [`KICK_FRAME_DURATION`] ticks
/// the kick frame steps, and after its second frame the kick ends with the
/// frame and timer reset.
pub open spec fn spec_advance_kick_frame(p: Player) -> Player {
    if p.is_kicking {
        if p.kick_frame_timer + 1 >= KICK_FRAME_DURATION {
            if p.kick_frame + 1 >= 2 {
                Player { is_kicking: false, kick_frame: 0, kick_frame_timer: 0, ..p }
            } else {
                Player { kick_frame: (p.kick_frame + 1) as usize, kick_frame_timer: 0, ..p }
            }
        } else {
            Player { kick_frame_timer: (p.kick_frame_timer + 1) as usize, ..p }
        }
    } else {
        p
    }
}

/// Advance the kick animation by one tick; the host calls this once per
/// frame so the sprite selection it reads stays in step.
pub fn advance_kick_frame(player: &mut Player)
    requires
        player_wf(*old(player)),
    ensures
        *final(player) == spec_advance_kick_frame(*old(player)),
        player_wf(*final(player)),
{
    if player.is_kicking {
        player.kick_frame_timer = player.kick_frame_timer + 1;
        if player.kick_frame_timer >= KICK_FRAME_DURATION {
            player.kick_frame = player.kick_frame + 1;
            player.kick_frame_timer = 0;
            if player.kick_frame >= 2 {
                player.is_kicking = false;
                player.kick_frame = 0;
            }
        }
    }
}

/// A kick that lands on an active obstacle with durability left takes
/// exactly one durability point and deactivates nothing; one that lands on
/// an active obstacle with no durability left deactivates exactly that
/// obstacle and starts the cascade. The durability never wraps below zero,
/// the collection never changes length, and in the durable case no other
/// obstacle changes at all.
pub proof fn lemma_kick_durability(obs: Seq<Obstacle>, i: int)
    requires
        0 <= i < obs.len(),
        obs[i].active,
    ensures
        spec_kick_obstacles(obs, i).len() == obs.len(),
        obs[i].durability > 0 ==> {
            let r = spec_kick_obstacles(obs, i);
            r[i].durability == obs[i].durability - 1 && r[i].active && r == obs.update(
                i,
                Obstacle { durability: (obs[i].durability - 1) as u8, ..obs[i] },
            )
        },
        obs[i].durability > 0 ==> forall|j: int|
            0 <= j < obs.len() && j != i ==> #[trigger] spec_kick_obstacles(obs, i)[j] == obs[j],
        obs[i].durability == 0 ==> spec_kick_obstacles(obs, i) == spec_remove_obstacle(obs, i)
            && !spec_kick_obstacles(obs, i)[i].active,
{
    if obs[i].durability == 0 {
        lemma_cascade_marks_exactly_the_contained(obs, i);
    }
}

} // verus!
