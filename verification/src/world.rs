//! The obstacle graph builder and the small world helpers: deriving the
//! obstacle boxes and their adjacency from a map's static tile grid, the
//! camera transform, and the layout of the sound table.

use vstd::prelude::*;

use crate::constants::{
    EXPLOSION_SOUND, FALL_HEAVY_SOUND, FALL_MILD_SOUND, FIXED_PLAYER_X, INITIAL_DURABILITY,
    JUMP_SOUND, KICK_BOX_SOUND, KICK_SOUND, SOUND_COUNT, WALK_SOUND_1, WALK_SOUND_2, WALK_SOUND_3,
    WALK_SOUND_4,
};
use crate::structs::{coord_ok, obstacle_wf, Obstacle, ObstacleId, Tile, TileType};

verus! {

/// Whether the horizontal spans of `a` and `b` overlap.
pub open spec fn x_overlap(a: Obstacle, b: Obstacle) -> bool {
    a.x_left < b.x_right && b.x_left < a.x_right
}

/// Whether the vertical spans of `a` and `b` overlap.
pub open spec fn y_overlap(a: Obstacle, b: Obstacle) -> bool {
    a.y_top < b.y_bottom && b.y_top < a.y_bottom
}

/// `b` sits directly over `a`: horizontally overlapping and resting on `a`'s
/// top edge.
pub open spec fn over_adjacent(a: Obstacle, b: Obstacle) -> bool {
    x_overlap(a, b) && b.y_bottom == a.y_top
}

/// `b` sits directly under `a`.
pub open spec fn under_adjacent(a: Obstacle, b: Obstacle) -> bool {
    x_overlap(a, b) && b.y_top == a.y_bottom
}

/// `b` touches `a` on `a`'s left edge.
pub open spec fn left_adjacent(a: Obstacle, b: Obstacle) -> bool {
    y_overlap(a, b) && b.x_right == a.x_left
}

/// `b` touches `a` on `a`'s right edge.
pub open spec fn right_adjacent(a: Obstacle, b: Obstacle) -> bool {
    y_overlap(a, b) && b.x_left == a.x_right
}

/// Whether some other active obstacle of `s` sits directly over `s[i]`.
/// Only active obstacles count as neighbors, so that no reference ever names
/// a removed obstacle.
pub open spec fn has_over(s: Seq<Obstacle>, i: int) -> bool {
    exists|j: int|
        0 <= j < s.len() && j != i && s[j].active && over_adjacent(s[i], #[trigger] s[j])
}

/// Whether some other active obstacle of `s` sits directly under `s[i]`.
pub open spec fn has_under(s: Seq<Obstacle>, i: int) -> bool {
    exists|j: int|
        0 <= j < s.len() && j != i && s[j].active && under_adjacent(s[i], #[trigger] s[j])
}

/// Whether some other active obstacle of `s` touches `s[i]` on the left.
pub open spec fn has_left(s: Seq<Obstacle>, i: int) -> bool {
    exists|j: int|
        0 <= j < s.len() && j != i && s[j].active && left_adjacent(s[i], #[trigger] s[j])
}

/// Whether some other active obstacle of `s` touches `s[i]` on the right.
pub open spec fn has_right(s: Seq<Obstacle>, i: int) -> bool {
    exists|j: int|
        0 <= j < s.len() && j != i && s[j].active && right_adjacent(s[i], #[trigger] s[j])
}

/// The id of the last active obstacle before index `j` (other than `i`) that
/// sits directly over `s[i]`, if any: the reference a pairwise scan leaves
/// behind.
pub open spec fn last_over_from(s: Seq<Obstacle>, i: int, j: int) -> Option<ObstacleId>
    decreases j,
{
    if j <= 0 {
        None
    } else if j - 1 != i && s[j - 1].active && over_adjacent(s[i], s[j - 1]) {
        Some(s[j - 1].id)
    } else {
        last_over_from(s, i, j - 1)
    }
}

/// The id of the last active obstacle before index `j` directly under `s[i]`.
pub open spec fn last_under_from(s: Seq<Obstacle>, i: int, j: int) -> Option<ObstacleId>
    decreases j,
{
    if j <= 0 {
        None
    } else if j - 1 != i && s[j - 1].active && under_adjacent(s[i], s[j - 1]) {
        Some(s[j - 1].id)
    } else {
        last_under_from(s, i, j - 1)
    }
}

/// The id of the last active obstacle before index `j` touching `s[i]` on
/// the left.
pub open spec fn last_left_from(s: Seq<Obstacle>, i: int, j: int) -> Option<ObstacleId>
    decreases j,
{
    if j <= 0 {
        None
    } else if j - 1 != i && s[j - 1].active && left_adjacent(s[i], s[j - 1]) {
        Some(s[j - 1].id)
    } else {
        last_left_from(s, i, j - 1)
    }
}

/// The id of the last active obstacle before index `j` touching `s[i]` on
/// the right.
pub open spec fn last_right_from(s: Seq<Obstacle>, i: int, j: int) -> Option<ObstacleId>
    decreases j,
{
    if j <= 0 {
        None
    } else if j - 1 != i && s[j - 1].active && right_adjacent(s[i], s[j - 1]) {
        Some(s[j - 1].id)
    } else {
        last_right_from(s, i, j - 1)
    }
}

/// The adjacency record a full pairwise recompute gives `s[i]`: each
/// reference names the last qualifying neighbor in scan order (or is absent),
/// each boundary flag says that no such neighbor exists, and every other
/// field is kept.
pub open spec fn spec_adjacency_of(s: Seq<Obstacle>, i: int) -> Obstacle {
    let over = last_over_from(s, i, s.len() as int);
    let under = last_under_from(s, i, s.len() as int);
    let left = last_left_from(s, i, s.len() as int);
    let right = last_right_from(s, i, s.len() as int);
    Obstacle {
        left_obstacle: left,
        right_obstacle: right,
        over_obstacle: over,
        under_obstacle: under,
        is_top_obstacle: over is None,
        is_bottom_obstacle: under is None,
        is_leftmost_obstacle: left is None,
        is_rightmost_obstacle: right is None,
        ..s[i]
    }
}

/// A full recompute of every obstacle's adjacency record.
pub open spec fn adjacency_rebuild(s: Seq<Obstacle>) -> Seq<Obstacle> {
    Seq::new(s.len(), |i: int| spec_adjacency_of(s, i))
}

/// The adjacency result for `s[i]` is correct in `r`: everything but the
/// adjacency fields is preserved; each boundary flag says that no such
/// neighbor exists; each reference is present exactly when a neighbor exists
/// and then names one of them (any qualifying neighbor is acceptable).
pub open spec fn adjacency_correct(s: Seq<Obstacle>, i: int, r: Obstacle) -> bool {
    &&& r == (Obstacle {
        left_obstacle: r.left_obstacle,
        right_obstacle: r.right_obstacle,
        over_obstacle: r.over_obstacle,
        under_obstacle: r.under_obstacle,
        is_bottom_obstacle: r.is_bottom_obstacle,
        is_top_obstacle: r.is_top_obstacle,
        is_leftmost_obstacle: r.is_leftmost_obstacle,
        is_rightmost_obstacle: r.is_rightmost_obstacle,
        ..s[i]
    })
    &&& r.is_top_obstacle == !has_over(s, i)
    &&& r.is_bottom_obstacle == !has_under(s, i)
    &&& r.is_leftmost_obstacle == !has_left(s, i)
    &&& r.is_rightmost_obstacle == !has_right(s, i)
    &&& r.over_obstacle is Some <==> has_over(s, i)
    &&& r.under_obstacle is Some <==> has_under(s, i)
    &&& r.left_obstacle is Some <==> has_left(s, i)
    &&& r.right_obstacle is Some <==> has_right(s, i)
    &&& match r.over_obstacle {
        Some(x) => exists|j: int|
            0 <= j < s.len() && j != i && s[j].active && over_adjacent(s[i], #[trigger] s[j])
                && s[j].id == x,
        None => true,
    }
    &&& match r.under_obstacle {
        Some(x) => exists|j: int|
            0 <= j < s.len() && j != i && s[j].active && under_adjacent(s[i], #[trigger] s[j])
                && s[j].id == x,
        None => true,
    }
    &&& match r.left_obstacle {
        Some(x) => exists|j: int|
            0 <= j < s.len() && j != i && s[j].active && left_adjacent(s[i], #[trigger] s[j])
                && s[j].id == x,
        None => true,
    }
    &&& match r.right_obstacle {
        Some(x) => exists|j: int|
            0 <= j < s.len() && j != i && s[j].active && right_adjacent(s[i], #[trigger] s[j])
                && s[j].id == x,
        None => true,
    }
}

/// A reference computed by the scan is present exactly when a neighbor
/// exists, and then names one.
proof fn lemma_last_over_char(s: Seq<Obstacle>, i: int, j: int)
    requires
        0 <= j <= s.len(),
    ensures
        match last_over_from(s, i, j) {
            Some(x) => exists|j0: int|
                0 <= j0 < j && j0 != i && s[j0].active && over_adjacent(s[i], #[trigger] s[j0])
                    && s[j0].id == x,
            None => forall|j0: int|
                0 <= j0 < j && j0 != i ==> !(s[j0].active && over_adjacent(
                    s[i],
                    #[trigger] s[j0],
                )),
        },
    decreases j,
{
    if j > 0 {
        lemma_last_over_char(s, i, j - 1);
    }
}

/// As [`lemma_last_over_char`], for the under direction.
proof fn lemma_last_under_char(s: Seq<Obstacle>, i: int, j: int)
    requires
        0 <= j <= s.len(),
    ensures
        match last_under_from(s, i, j) {
            Some(x) => exists|j0: int|
                0 <= j0 < j && j0 != i && s[j0].active && under_adjacent(s[i], #[trigger] s[j0])
                    && s[j0].id == x,
            None => forall|j0: int|
                0 <= j0 < j && j0 != i ==> !(s[j0].active && under_adjacent(
                    s[i],
                    #[trigger] s[j0],
                )),
        },
    decreases j,
{
    if j > 0 {
        lemma_last_under_char(s, i, j - 1);
    }
}

/// As [`lemma_last_over_char`], for the left direction.
proof fn lemma_last_left_char(s: Seq<Obstacle>, i: int, j: int)
    requires
        0 <= j <= s.len(),
    ensures
        match last_left_from(s, i, j) {
            Some(x) => exists|j0: int|
                0 <= j0 < j && j0 != i && s[j0].active && left_adjacent(s[i], #[trigger] s[j0])
                    && s[j0].id == x,
            None => forall|j0: int|
                0 <= j0 < j && j0 != i ==> !(s[j0].active && left_adjacent(
                    s[i],
                    #[trigger] s[j0],
                )),
        },
    decreases j,
{
    if j > 0 {
        lemma_last_left_char(s, i, j - 1);
    }
}

/// As [`lemma_last_over_char`], for the right direction.
proof fn lemma_last_right_char(s: Seq<Obstacle>, i: int, j: int)
    requires
        0 <= j <= s.len(),
    ensures
        match last_right_from(s, i, j) {
            Some(x) => exists|j0: int|
                0 <= j0 < j && j0 != i && s[j0].active && right_adjacent(s[i], #[trigger] s[j0])
                    && s[j0].id == x,
            None => forall|j0: int|
                0 <= j0 < j && j0 != i ==> !(s[j0].active && right_adjacent(
                    s[i],
                    #[trigger] s[j0],
                )),
        },
    decreases j,
{
    if j > 0 {
        lemma_last_right_char(s, i, j - 1);
    }
}

/// The recompute meets the adjacency relation at every index.
pub proof fn lemma_rebuild_correct(s: Seq<Obstacle>, i: int)
    requires
        0 <= i < s.len(),
    ensures
        adjacency_correct(s, i, spec_adjacency_of(s, i)),
{
    lemma_last_over_char(s, i, s.len() as int);
    lemma_last_under_char(s, i, s.len() as int);
    lemma_last_left_char(s, i, s.len() as int);
    lemma_last_right_char(s, i, s.len() as int);
}

/// Compute the adjacency record of `s[i]` by a pairwise scan.
#[verifier::rlimit(100)]
#[verifier::spinoff_prover]
fn adjacency_of(obstacles: &Vec<Obstacle>, i: usize) -> (r: Obstacle)
    requires
        i < obstacles@.len(),
    ensures
        r == spec_adjacency_of(obstacles@, i as int),
        adjacency_correct(obstacles@, i as int, r),
{
    let me = obstacles[i];
    let mut r = me;
    r.left_obstacle = None;
    r.right_obstacle = None;
    r.over_obstacle = None;
    r.under_obstacle = None;
    let mut j: usize = 0;
    while j < obstacles.len()
        invariant
            i < obstacles@.len(),
            j <= obstacles@.len(),
            me == obstacles@[i as int],
            r == (Obstacle {
                left_obstacle: r.left_obstacle,
                right_obstacle: r.right_obstacle,
                over_obstacle: r.over_obstacle,
                under_obstacle: r.under_obstacle,
                ..me
            }),
            r.over_obstacle == last_over_from(obstacles@, i as int, j as int),
            r.under_obstacle == last_under_from(obstacles@, i as int, j as int),
            r.left_obstacle == last_left_from(obstacles@, i as int, j as int),
            r.right_obstacle == last_right_from(obstacles@, i as int, j as int),
        decreases obstacles@.len() - j,
    {
        if j != i {
            let other = obstacles[j];
            if other.active {
                if me.x_left < other.x_right && other.x_left < me.x_right {
                    if other.y_bottom == me.y_top {
                        r.over_obstacle = Some(other.id);
                    }
                    if other.y_top == me.y_bottom {
                        r.under_obstacle = Some(other.id);
                    }
                }
                if me.y_top < other.y_bottom && other.y_top < me.y_bottom {
                    if other.x_right == me.x_left {
                        r.left_obstacle = Some(other.id);
                    }
                    if other.x_left == me.x_right {
                        r.right_obstacle = Some(other.id);
                    }
                }
            }
        }
        j = j + 1;
    }
    r.is_top_obstacle = r.over_obstacle.is_none();
    r.is_bottom_obstacle = r.under_obstacle.is_none();
    r.is_leftmost_obstacle = r.left_obstacle.is_none();
    r.is_rightmost_obstacle = r.right_obstacle.is_none();
    proof {
        assert(r == spec_adjacency_of(obstacles@, i as int));
        lemma_rebuild_correct(obstacles@, i as int);
    }
    r
}

/// Recompute every obstacle's adjacency references and boundary flags from
/// the complete set of boxes: a full pairwise recompute, run at map load and
/// again after every runtime spawn.
pub fn rebuild_adjacency(obstacles: &mut Vec<Obstacle>)
    ensures
        final(obstacles)@ == adjacency_rebuild(old(obstacles)@),
        final(obstacles)@.len() == old(obstacles)@.len(),
        forall|i: int|
            0 <= i < old(obstacles)@.len() ==> adjacency_correct(
                old(obstacles)@,
                i,
                #[trigger] final(obstacles)@[i],
            ),
        forall|i: int|
            0 <= i < old(obstacles)@.len() && obstacle_wf(old(obstacles)@[i]) ==> obstacle_wf(
                #[trigger] final(obstacles)@[i],
            ),
{
    let mut result: Vec<Obstacle> = Vec::new();
    let mut i: usize = 0;
    while i < obstacles.len()
        invariant
            i <= obstacles@.len(),
            *obstacles == *old(obstacles),
            result@.len() == i,
            forall|k: int| 0 <= k < i ==> #[trigger] result@[k] == spec_adjacency_of(
                obstacles@,
                k,
            ),
        decreases obstacles@.len() - i,
    {
        let r = adjacency_of(obstacles, i);
        result.push(r);
        i = i + 1;
    }
    *obstacles = result;
    proof {
        assert(obstacles@ =~= adjacency_rebuild(old(obstacles)@));
        assert forall|k: int| 0 <= k < old(obstacles)@.len() implies adjacency_correct(
            old(obstacles)@,
            k,
            #[trigger] obstacles@[k],
        ) by {
            lemma_rebuild_correct(old(obstacles)@, k);
        }
    }
}

/// The obstacle box a tile becomes, carrying its position in the obstacle
/// collection as its identity.
pub open spec fn box_of_tile(t: Tile, id: int) -> Obstacle {
    Obstacle {
        id: ObstacleId(id as usize),
        x_left: t.x_left,
        x_right: t.x_right,
        y_top: t.y_top,
        y_bottom: t.y_bottom,
        active: true,
        durability: INITIAL_DURABILITY,
        falling: false,
        velocity_y: 0,
        left_obstacle: None,
        right_obstacle: None,
        over_obstacle: None,
        under_obstacle: None,
        is_bottom_obstacle: false,
        is_top_obstacle: false,
        is_leftmost_obstacle: false,
        is_rightmost_obstacle: false,
    }
}

/// The obstacle boxes of a tile grid, in grid order.
pub open spec fn boxes_of_tiles(tiles: Seq<Tile>) -> Seq<Obstacle>
    decreases tiles.len(),
{
    if tiles.len() == 0 {
        Seq::empty()
    } else {
        let rest = boxes_of_tiles(tiles.drop_last());
        if tiles.last().tile_type == TileType::Obstacle {
            rest.push(box_of_tile(tiles.last(), rest.len() as int))
        } else {
            rest
        }
    }
}

/// Build the obstacle collection of a map from its static tile grid: one box
/// of full durability per obstacle tile, with adjacency references and
/// boundary flags derived by a pairwise scan of the complete set.
pub fn extract_obstacles(tiles: &Vec<Tile>) -> (r: Vec<Obstacle>)
    ensures
        r@ == adjacency_rebuild(boxes_of_tiles(tiles@)),
        r@.len() == boxes_of_tiles(tiles@).len(),
        forall|i: int|
            0 <= i < r@.len() ==> adjacency_correct(boxes_of_tiles(tiles@), i, #[trigger] r@[i]),
{
    let mut obstacles: Vec<Obstacle> = Vec::new();
    let mut k: usize = 0;
    while k < tiles.len()
        invariant
            k <= tiles@.len(),
            obstacles@ == boxes_of_tiles(tiles@.subrange(0, k as int)),
        decreases tiles@.len() - k,
    {
        let t = tiles[k];
        if matches!(t.tile_type, TileType::Obstacle) {
            let id = obstacles.len();
            obstacles.push(
                Obstacle {
                    id: ObstacleId(id),
                    x_left: t.x_left,
                    x_right: t.x_right,
                    y_top: t.y_top,
                    y_bottom: t.y_bottom,
                    active: true,
                    durability: INITIAL_DURABILITY,
                    falling: false,
                    velocity_y: 0,
                    left_obstacle: None,
                    right_obstacle: None,
                    over_obstacle: None,
                    under_obstacle: None,
                    is_bottom_obstacle: false,
                    is_top_obstacle: false,
                    is_leftmost_obstacle: false,
                    is_rightmost_obstacle: false,
                },
            );
        }
        proof {
            assert(tiles@.subrange(0, k as int + 1).drop_last() =~= tiles@.subrange(0, k as int));
            assert(tiles@.subrange(0, k as int + 1).last() == tiles@[k as int]);
        }
        k = k + 1;
    }
    proof {
        assert(tiles@.subrange(0, tiles@.len() as int) =~= tiles@);
    }
    rebuild_adjacency(&mut obstacles);
    obstacles
}

/// Where a world object lands on the screen: the world offset from the
/// player, shifted by the fixed on-screen player position and clamped at the
/// left screen edge.
pub open spec fn spec_relative_x(world_object_x: int, world_player_x: int) -> int {
    let v = world_object_x - world_player_x + FIXED_PLAYER_X;
    if v > 0 {
        v
    } else {
        0
    }
}

/// Compute the screen x of a world object relative to the scrolling camera.
pub fn calculate_relative_x(world_object_x: isize, world_player_x: isize) -> (r: usize)
    requires
        -0x2000_0000 <= world_object_x <= 0x2000_0000,
        -0x2000_0000 <= world_player_x <= 0x2000_0000,
    ensures
        r == spec_relative_x(world_object_x as int, world_player_x as int),
{
    let v: isize = world_object_x - world_player_x + FIXED_PLAYER_X;
    if v > 0 {
        v as usize
    } else {
        0
    }
}

/// The asset paths of the sound table, in sound-id order: the four footstep
/// samples, then the jump, the two landing weights, the obstacle thud, the
/// explosion, the kick whiff and the kick impact.
pub fn load_sounds() -> (r: Vec<&'static str>)
    ensures
        r@.len() == SOUND_COUNT,
        r@[WALK_SOUND_1 as int]@ == "assets/sounds/walk_1.wav"@,
        r@[WALK_SOUND_2 as int]@ == "assets/sounds/walk_2.wav"@,
        r@[WALK_SOUND_3 as int]@ == "assets/sounds/walk_3.wav"@,
        r@[WALK_SOUND_4 as int]@ == "assets/sounds/walk_4.wav"@,
        r@[JUMP_SOUND as int]@ == "assets/sounds/jump.wav"@,
        r@[FALL_MILD_SOUND as int]@ == "assets/sounds/fall_mild.wav"@,
        r@[FALL_HEAVY_SOUND as int]@ == "assets/sounds/fall_heavy.wav"@,
        r@[crate::constants::DOWN_SOUND as int]@ == "assets/sounds/down.wav"@,
        r@[EXPLOSION_SOUND as int]@ == "assets/sounds/explosion.wav"@,
        r@[KICK_SOUND as int]@ == "assets/sounds/kick.wav"@,
        r@[KICK_BOX_SOUND as int]@ == "assets/sounds/kick_box.wav"@,
{
    let mut sounds: Vec<&'static str> = Vec::new();
    sounds.push("assets/sounds/walk_1.wav");
    sounds.push("assets/sounds/walk_2.wav");
    sounds.push("assets/sounds/walk_3.wav");
    sounds.push("assets/sounds/walk_4.wav");
    sounds.push("assets/sounds/jump.wav");
    sounds.push("assets/sounds/fall_mild.wav");
    sounds.push("assets/sounds/fall_heavy.wav");
    sounds.push("assets/sounds/down.wav");
    sounds.push("assets/sounds/explosion.wav");
    sounds.push("assets/sounds/kick.wav");
    sounds.push("assets/sounds/kick_box.wav");
    sounds
}

} // verus!
