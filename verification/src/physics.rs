//! Horizontal kinematics: the acceleration and deceleration model.
//!
//! While a movement command is held the speed gains [`ACCELERATION`], is
//! damped by the ratio 98/100 while under the cap, and is clamped at
//! [`MAX_VELOCITY`]; a detected obstacle ahead forces it to zero. While no
//! movement command is held the speed decays by the ratio 95/100 and snaps to
//! exactly zero below [`VELOCITY_EPSILON`]. The two ratios are deliberately
//! different and are kept exact.

use vstd::arithmetic::div_mod::{lemma_div_is_ordered, lemma_div_multiples_vanish};
use vstd::prelude::*;

use crate::constants::{ACCELERATION, ACCEL_DAMP_NUM, DAMP_DEN, DECAY_NUM, MAX_VELOCITY, VELOCITY_EPSILON};
use crate::structs::{game_wf, GameState, Player};

verus! {

/// The speed after one tick of held movement: gain [`ACCELERATION`], then
/// either stop dead before a detected obstacle, or damp by 98/100 and clamp
/// at [`MAX_VELOCITY`].
pub open spec fn spec_accelerate(vx: int, obstacle_detected: bool) -> int {
    let gained = vx + ACCELERATION;
    if obstacle_detected {
        0
    } else if gained > MAX_VELOCITY {
        MAX_VELOCITY as int
    } else {
        let damped = gained * ACCEL_DAMP_NUM / DAMP_DEN as int;
        if damped > MAX_VELOCITY {
            MAX_VELOCITY as int
        } else {
            damped
        }
    }
}

/// The speed after one tick without movement input: decay by 95/100, snapping
/// to exactly zero once within [`VELOCITY_EPSILON`] of zero.
pub open spec fn spec_decay(vx: int) -> int {
    let decayed = vx * DECAY_NUM / DAMP_DEN as int;
    if -(VELOCITY_EPSILON as int) < decayed < VELOCITY_EPSILON {
        0
    } else {
        decayed
    }
}

/// The speed after `n` consecutive ticks of held movement.
pub open spec fn accel_iter(vx: int, obstacle_detected: bool, n: nat) -> int
    decreases n,
{
    if n == 0 {
        vx
    } else {
        accel_iter(spec_accelerate(vx, obstacle_detected), obstacle_detected, (n - 1) as nat)
    }
}

/// The speed after `n` consecutive ticks without movement input.
pub open spec fn decay_iter(vx: int, n: nat) -> int
    decreases n,
{
    if n == 0 {
        vx
    } else {
        decay_iter(spec_decay(vx), (n - 1) as nat)
    }
}

/// One tick of held movement keeps the speed within `0 ..= MAX_VELOCITY`.
pub proof fn lemma_accelerate_capped(vx: int, obstacle_detected: bool)
    requires
        0 <= vx <= MAX_VELOCITY,
    ensures
        0 <= spec_accelerate(vx, obstacle_detected) <= MAX_VELOCITY,
{
    let gained = vx + ACCELERATION;
    if !obstacle_detected && gained <= MAX_VELOCITY {
        lemma_div_is_ordered(0, gained * ACCEL_DAMP_NUM, DAMP_DEN as int);
        lemma_div_is_ordered(gained * ACCEL_DAMP_NUM, gained * (DAMP_DEN as int), DAMP_DEN as int);
        lemma_div_multiples_vanish(gained, DAMP_DEN as int);
    }
}

/// The player's speed never exceeds [`MAX_VELOCITY`], however many
/// consecutive movement ticks occur.
pub proof fn lemma_velocity_never_exceeds_max(vx: int, obstacle_detected: bool, n: nat)
    requires
        0 <= vx <= MAX_VELOCITY,
    ensures
        0 <= accel_iter(vx, obstacle_detected, n) <= MAX_VELOCITY,
    decreases n,
{
    if n > 0 {
        lemma_accelerate_capped(vx, obstacle_detected);
        lemma_velocity_never_exceeds_max(
            spec_accelerate(vx, obstacle_detected),
            obstacle_detected,
            (n - 1) as nat,
        );
    }
}

/// One decay tick never increases a legal speed, drops a speed of at least
/// [`VELOCITY_EPSILON`] by at least 5, and sends a smaller speed straight
/// to zero.
pub proof fn lemma_decay_step(vx: int)
    requires
        0 <= vx <= MAX_VELOCITY,
    ensures
        0 <= spec_decay(vx) <= vx,
        vx < VELOCITY_EPSILON ==> spec_decay(vx) == 0,
        vx >= VELOCITY_EPSILON ==> spec_decay(vx) <= vx - 5,
{
    lemma_div_is_ordered(0, vx * DECAY_NUM, DAMP_DEN as int);
    lemma_div_is_ordered(vx * DECAY_NUM, vx * (DAMP_DEN as int), DAMP_DEN as int);
    lemma_div_multiples_vanish(vx, DAMP_DEN as int);
    if vx >= VELOCITY_EPSILON {
        lemma_div_is_ordered(vx * DECAY_NUM, (vx - 5) * (DAMP_DEN as int), DAMP_DEN as int);
        lemma_div_multiples_vanish(vx - 5, DAMP_DEN as int);
    }
}

/// Zero is a fixed point of decay.
proof fn lemma_decay_zero_fixed(n: nat)
    ensures
        decay_iter(0, n) == 0,
    decreases n,
{
    if n > 0 {
        lemma_decay_zero_fixed((n - 1) as nat);
    }
}

/// A speed of at most `95 + 5 n` reaches exactly zero within `n + 1` decay
/// ticks: every tick above the snap band loses at least 5, and one tick
/// inside the band snaps to zero.
pub proof fn lemma_decay_reaches_zero(vx: int, n: nat)
    requires
        0 <= vx,
        vx <= 95 + 5 * n,
    ensures
        decay_iter(vx, (n + 1) as nat) == 0,
    decreases n,
{
    lemma_div_is_ordered(0, vx * DECAY_NUM, DAMP_DEN as int);
    lemma_div_is_ordered(vx * DECAY_NUM, vx * (DAMP_DEN as int), DAMP_DEN as int);
    lemma_div_multiples_vanish(vx, DAMP_DEN as int);
    if vx < VELOCITY_EPSILON {
        lemma_decay_zero_fixed(n);
    } else {
        lemma_div_is_ordered(vx * DECAY_NUM, (vx - 5) * (DAMP_DEN as int), DAMP_DEN as int);
        lemma_div_multiples_vanish(vx - 5, DAMP_DEN as int);
        lemma_decay_reaches_zero(spec_decay(vx), (n - 1) as nat);
    }
}

/// A resting player's speed converges to exactly zero: from any legal speed,
/// 382 ticks without input reach the snap and end at zero.
pub proof fn lemma_velocity_converges(vx: int)
    requires
        0 <= vx <= MAX_VELOCITY,
    ensures
        decay_iter(vx, 382nat) == 0,
{
    lemma_decay_reaches_zero(vx, 381nat);
}

/// One tick of held movement: gain, damp and clamp the player's speed, or
/// stop dead when an obstacle is ahead.
pub fn increase_velocity(game_state: &mut GameState)
    requires
        game_wf(*old(game_state)),
    ensures
        *final(game_state) == (GameState {
            player: Player {
                vx: spec_accelerate(
                    old(game_state).player.vx as int,
                    old(game_state).player.obstacle_detected,
                ) as i64,
                ..old(game_state).player
            },
            ..*old(game_state)
        }),
        game_wf(*final(game_state)),
{
    proof {
        lemma_accelerate_capped(game_state.player.vx as int, game_state.player.obstacle_detected);
    }
    let gained: i64 = game_state.player.vx + ACCELERATION;
    if game_state.player.obstacle_detected {
        game_state.player.vx = 0;
    } else if gained > MAX_VELOCITY {
        game_state.player.vx = MAX_VELOCITY;
    } else {
        let damped: i64 = gained * ACCEL_DAMP_NUM / DAMP_DEN;
        if damped > MAX_VELOCITY {
            game_state.player.vx = MAX_VELOCITY;
        } else {
            game_state.player.vx = damped;
        }
    }
}

/// One tick without movement input: decay the player's speed and snap it to
/// zero below [`VELOCITY_EPSILON`].
pub fn decrease_velocity(game_state: &mut GameState)
    requires
        game_wf(*old(game_state)),
    ensures
        *final(game_state) == (GameState {
            player: Player {
                vx: spec_decay(old(game_state).player.vx as int) as i64,
                ..old(game_state).player
            },
            ..*old(game_state)
        }),
        game_wf(*final(game_state)),
{
    proof {
        lemma_decay_step(game_state.player.vx as int);
    }
    let decayed: i64 = game_state.player.vx * DECAY_NUM / DAMP_DEN;
    if -VELOCITY_EPSILON < decayed && decayed < VELOCITY_EPSILON {
        game_state.player.vx = 0;
    } else {
        game_state.player.vx = decayed;
    }
}

} // verus!
