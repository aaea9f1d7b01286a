//! The per-command entry points of the input collaborator: walking left and
//! right (with the walk-cycle animation and footsteps) and jumping. Kicking
//! lives in its own module.

use vstd::prelude::*;

use crate::constants::{
    JUMP_SOUND, JUMP_VELOCITY, WALK_SOUND_1, WALK_SOUND_2, WALK_SOUND_3, WALK_SOUND_4,
};
use crate::events::{sound_event, EventQueue, SoundEvent};
use crate::physics::{increase_velocity, spec_accelerate};
use crate::structs::{game_wf, Command, Direction, GameModel, GameState, Player};

verus! {

/// The next footstep sample index: cycles `0 ..= 4`.
pub open spec fn spec_next_footstep(i: usize) -> usize {
    if i == 4 {
        0
    } else {
        (i + 1) as usize
    }
}

/// The sound id played for footstep index `i`.
pub open spec fn spec_footstep_sound(i: usize) -> usize {
    if i == 0 {
        WALK_SOUND_1
    } else if i == 1 {
        WALK_SOUND_2
    } else if i == 2 {
        WALK_SOUND_3
    } else {
        WALK_SOUND_4
    }
}

/// The game state after one footstep: the footstep cycle advances.
pub open spec fn spec_footstep(g: GameModel) -> GameModel {
    GameModel { footstep_index: spec_next_footstep(g.footstep_index), ..g }
}

/// The footstep event emitted for the advanced cycle position.
pub open spec fn spec_footstep_events(g: GameModel) -> Seq<SoundEvent> {
    seq![sound_event(spec_footstep_sound(spec_next_footstep(g.footstep_index)), 200)]
}

/// Advance the footstep cycle and emit the matching footstep sample.
pub fn play_footstep_sound(game_state: &mut GameState, events: &mut EventQueue)
    requires
        game_wf(*old(game_state)),
    ensures
        final(game_state)@ == spec_footstep(old(game_state)@),
        final(events).events@ == old(events).events@ + spec_footstep_events(old(game_state)@),
        game_wf(*final(game_state)),
{
    if game_state.footstep_index == 4 {
        game_state.footstep_index = 0;
    } else {
        game_state.footstep_index = game_state.footstep_index + 1;
    }
    let sound_index: usize = if game_state.footstep_index == 0 {
        WALK_SOUND_1
    } else if game_state.footstep_index == 1 {
        WALK_SOUND_2
    } else if game_state.footstep_index == 2 {
        WALK_SOUND_3
    } else {
        WALK_SOUND_4
    };
    events.push(sound_index, 200);
}

/// The walking-left player after one held tick: speed model applied,
/// direction and last command recorded, and the walk cycle advanced once
/// every three ticks through sprite indices `4 ..= 7`.
pub open spec fn spec_move_left_player(p: Player) -> Player {
    let p1 = Player {
        vx: spec_accelerate(p.vx as int, p.obstacle_detected) as i64,
        last_key: Some(Command::MoveLeft),
        direction: Direction::Left,
        ..p
    };
    if p1.left_increment_frame_count + 1 >= 3 {
        Player {
            left_increment_frame_count: 0,
            left_increment: if p1.left_increment == 7 {
                4
            } else {
                (p1.left_increment + 1) as usize
            },
            ..p1
        }
    } else {
        Player { left_increment_frame_count: (p1.left_increment_frame_count + 1) as usize, ..p1 }
    }
}

/// The walking-right player after one held tick, cycling sprite indices
/// `0 ..= 3`.
pub open spec fn spec_move_right_player(p: Player) -> Player {
    let p1 = Player {
        vx: spec_accelerate(p.vx as int, p.obstacle_detected) as i64,
        last_key: Some(Command::MoveRight),
        direction: Direction::Right,
        ..p
    };
    if p1.right_increment_frame_count + 1 >= 3 {
        Player {
            right_increment_frame_count: 0,
            right_increment: if p1.right_increment == 3 {
                0
            } else {
                (p1.right_increment + 1) as usize
            },
            ..p1
        }
    } else {
        Player { right_increment_frame_count: (p1.right_increment_frame_count + 1) as usize, ..p1 }
    }
}

/// The game state after one walking-left tick: the player update, plus a
/// footstep when one is due.
pub open spec fn spec_move_left(g: GameModel) -> GameModel {
    let g1 = GameModel { player: spec_move_left_player(g.player), ..g };
    if g.footstep_active {
        spec_footstep(g1)
    } else {
        g1
    }
}

/// The events of one walking-left tick.
pub open spec fn spec_move_left_events(g: GameModel) -> Seq<SoundEvent> {
    if g.footstep_active {
        spec_footstep_events(g)
    } else {
        Seq::empty()
    }
}

/// The game state after one walking-right tick.
pub open spec fn spec_move_right(g: GameModel) -> GameModel {
    let g1 = GameModel { player: spec_move_right_player(g.player), ..g };
    if g.footstep_active {
        spec_footstep(g1)
    } else {
        g1
    }
}

/// The events of one walking-right tick.
pub open spec fn spec_move_right_events(g: GameModel) -> Seq<SoundEvent> {
    if g.footstep_active {
        spec_footstep_events(g)
    } else {
        Seq::empty()
    }
}

/// The command that walks the player left.
pub struct MoveLeft;

impl MoveLeft {
    /// Advance the walking-left sprite cycle once every three held ticks.
    fn advance_walking_animation(player: &mut Player)
        requires
            old(player).left_increment <= 7,
        ensures
            *final(player) == (if old(player).left_increment_frame_count >= 3 {
                Player {
                    left_increment_frame_count: 0,
                    left_increment: if old(player).left_increment == 7 {
                        4
                    } else {
                        (old(player).left_increment + 1) as usize
                    },
                    ..*old(player)
                }
            } else {
                *old(player)
            }),
    {
        if player.left_increment_frame_count >= 3 {
            player.left_increment_frame_count = 0;
            if player.left_increment == 7 {
                player.left_increment = 4;
            } else {
                player.left_increment = player.left_increment + 1;
            }
        }
    }

    /// One held tick of walking left.
    #[verifier::rlimit(100)]
    pub fn execute(&self, game_state: &mut GameState, events: &mut EventQueue)
        requires
            game_wf(*old(game_state)),
        ensures
            final(game_state)@ == spec_move_left(old(game_state)@),
            final(events).events@ == old(events).events@ + spec_move_left_events(
                old(game_state)@,
            ),
            game_wf(*final(game_state)),
    {
        increase_velocity(game_state);
        game_state.player.last_key = Some(Command::MoveLeft);
        game_state.player.direction = Direction::Left;
        game_state.player.left_increment_frame_count =
            game_state.player.left_increment_frame_count + 1;
        Self::advance_walking_animation(&mut game_state.player);
        proof {
            assert(game_state@.player == spec_move_left_player(old(game_state)@.player));
        }
        if game_state.footstep_active {
            play_footstep_sound(game_state, events);
        }
        proof {
            assert(game_state@ == spec_move_left(old(game_state)@));
        }
    }
}

/// The command that walks the player right.
pub struct MoveRight;

impl MoveRight {
    /// Advance the walking-right sprite cycle once every three held ticks.
    fn advance_walking_animation(player: &mut Player)
        requires
            old(player).right_increment <= 3,
        ensures
            *final(player) == (if old(player).right_increment_frame_count >= 3 {
                Player {
                    right_increment_frame_count: 0,
                    right_increment: if old(player).right_increment == 3 {
                        0
                    } else {
                        (old(player).right_increment + 1) as usize
                    },
                    ..*old(player)
                }
            } else {
                *old(player)
            }),
    {
        if player.right_increment_frame_count >= 3 {
            player.right_increment_frame_count = 0;
            if player.right_increment == 3 {
                player.right_increment = 0;
            } else {
                player.right_increment = player.right_increment + 1;
            }
        }
    }

    /// One held tick of walking right.
    #[verifier::rlimit(100)]
    pub fn execute(&self, game_state: &mut GameState, events: &mut EventQueue)
        requires
            game_wf(*old(game_state)),
        ensures
            final(game_state)@ == spec_move_right(old(game_state)@),
            final(events).events@ == old(events).events@ + spec_move_right_events(
                old(game_state)@,
            ),
            game_wf(*final(game_state)),
    {
        increase_velocity(game_state);
        game_state.player.last_key = Some(Command::MoveRight);
        game_state.player.direction = Direction::Right;
        game_state.player.right_increment_frame_count =
            game_state.player.right_increment_frame_count + 1;
        Self::advance_walking_animation(&mut game_state.player);
        proof {
            assert(game_state@.player == spec_move_right_player(old(game_state)@.player));
        }
        if game_state.footstep_active {
            play_footstep_sound(game_state, events);
        }
        proof {
            assert(game_state@ == spec_move_right(old(game_state)@));
        }
    }
}

/// The command that starts a jump.
pub struct Jump;

/// Whether the player may start a jump: supported and not already jumping.
pub open spec fn jump_eligible(p: Player) -> bool {
    !p.is_jumping && (p.on_ground || p.on_obstacle)
}

/// The game state after a jump command: when eligible, the vertical velocity
/// becomes [`JUMP_VELOCITY`], support is released and the jump begins;
/// otherwise nothing changes.
pub open spec fn spec_jump(g: GameModel) -> GameModel {
    if jump_eligible(g.player) {
        GameModel {
            player: Player {
                vy: JUMP_VELOCITY,
                on_ground: false,
                on_obstacle: false,
                is_jumping: true,
                last_key: Some(Command::Jump),
                ..g.player
            },
            ..g
        }
    } else {
        g
    }
}

/// The events of a jump command: the jump sound exactly when eligible.
pub open spec fn spec_jump_events(g: GameModel) -> Seq<SoundEvent> {
    if jump_eligible(g.player) {
        seq![sound_event(JUMP_SOUND, 1500)]
    } else {
        Seq::empty()
    }
}

impl Jump {
    /// One jump command.
    pub fn execute(&self, game_state: &mut GameState, events: &mut EventQueue)
        requires
            game_wf(*old(game_state)),
        ensures
            final(game_state)@ == spec_jump(old(game_state)@),
            final(events).events@ == old(events).events@ + spec_jump_events(old(game_state)@),
            game_wf(*final(game_state)),
    {
        if !game_state.player.is_jumping && (game_state.player.on_ground
            || game_state.player.on_obstacle) {
            game_state.player.vy = JUMP_VELOCITY;
            game_state.player.on_ground = false;
            game_state.player.on_obstacle = false;
            game_state.player.is_jumping = true;
            game_state.player.last_key = Some(Command::Jump);
            events.push(JUMP_SOUND, 1500);
        }
    }
}

} // verus!
