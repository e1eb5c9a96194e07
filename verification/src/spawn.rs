//! Enemy spawning: where a new enemy may appear, and when one is due.

use rand::rngs::ThreadRng;
use rand::Rng;
use vstd::prelude::*;

use crate::timer::Cooldown;

verus! {

/// Horizontal half-extent of the arena: positions run from `-640` to `640`.
pub const WINDOW_MAX_X: i32 = 640;

/// Vertical half-extent of the arena: positions run from `-360` to `360`.
pub const WINDOW_MAX_Y: i32 = 360;

/// Distance that a new enemy keeps from the player on each axis.
pub const SPAWN_BUFFER: i32 = 50;

/// Count of spawned enemies from which on no new one is spawned.
pub const ENEMY_CAP: i32 = 20;

/// Time between two spawns: 3 s.
pub const ENEMY_SPAWN_NANOS: u64 = 3_000_000_000;

/// Marks an entity as an enemy.
#[derive(Debug, Clone, Copy, PartialEq, Eq)]
pub struct Enemy;

/// The number of enemies spawned so far. Removing an enemy does not lower
/// it, so the cap bounds the enemies ever spawned, not those alive.
#[derive(Debug, Clone, Copy, PartialEq, Eq)]
pub struct EnemyCount(pub i32);

/// The cooldown between two spawns.
#[derive(Debug, Clone, Copy, PartialEq, Eq)]
pub struct EnemySpawnTimer(pub Cooldown);

/// Whether there is room between the player's buffer and the arena's upper
/// edge on an axis with half-extent `max`.
pub open spec fn room_above(player: int, max: int) -> bool {
    player + SPAWN_BUFFER < max
}

/// Whether there is room between the arena's lower edge and the player's
/// buffer on an axis with half-extent `max`.
pub open spec fn room_below(player: int, max: int) -> bool {
    player - SPAWN_BUFFER > -max
}

/// The coordinates that a spawn may take on one axis: past the buffer above
/// the player and before the upper edge, or from the lower edge up to the
/// buffer below the player; zero where neither range has room.
pub open spec fn valid_spawn(player: int, max: int, coordinate: int) -> bool {
    ||| room_above(player, max) && player + SPAWN_BUFFER <= coordinate < max
    ||| room_below(player, max) && -max <= coordinate < player - SPAWN_BUFFER
    ||| !room_above(player, max) && !room_below(player, max) && coordinate == 0
}

/// The coordinate taken from two candidate draws: where both ranges had room
/// the coin decides, where one had room its draw is taken, else zero.
pub open spec fn chosen(above: Option<i32>, below: Option<i32>, prefer_above: bool) -> i32 {
    match (above, below) {
        (Some(a), Some(b)) => if prefer_above {
            a
        } else {
            b
        },
        (Some(a), None) => a,
        (None, Some(b)) => b,
        (None, None) => 0,
    }
}

/// `rand::rngs::ThreadRng`: the handle to a thread's random number
/// generator. The library hands it on and never looks inside.
#[verifier::external_type_specification]
#[verifier::external_body]
pub struct ExThreadRng(ThreadRng);

/// `rand::thread_rng`: a handle to the calling thread's generator. Nothing is
/// claimed of it. The generator is seeded from the operating system on its
/// first use in a thread, and the call panics if the system cannot seed it.
#[verifier::external_body]
fn thread_rng() -> ThreadRng {
    rand::thread_rng()
}

/// `rand::Rng::gen_range` on `i32`: some value from `low` up to, not
/// including, `high`. The call panics on an empty range, so `low < high` is
/// demanded. Which value comes out is left open.
#[verifier::external_body]
fn gen_range(rng: &mut ThreadRng, low: i32, high: i32) -> (value: i32)
    requires
        low < high,
    ensures
        low <= value < high,
{
    rng.gen_range(low, high)
}

/// Picks the spawn coordinate on one axis from the candidate draws.
pub fn choose_position(above: Option<i32>, below: Option<i32>, prefer_above: bool) -> (coordinate:
    i32)
    ensures
        coordinate == chosen(above, below, prefer_above),
{
    match (above, below) {
        (Some(a), Some(b)) => if prefer_above {
            a
        } else {
            b
        },
        (Some(a), None) => a,
        (None, Some(b)) => b,
        (None, None) => 0,
    }
}

/// Draws a coordinate past the player's buffer and before the upper edge, if
/// there is room for one.
fn draw_above(rng: &mut ThreadRng, player: i32, max: i32) -> (draw: Option<i32>)
    ensures
        draw is Some <==> room_above(player as int, max as int),
        draw matches Some(v) ==> player + SPAWN_BUFFER <= v < max,
{
    let low: i64 = player as i64 + SPAWN_BUFFER as i64;
    if low < max as i64 {
        Some(gen_range(rng, low as i32, max))
    } else {
        None
    }
}

/// Draws a coordinate from the lower edge up to the player's buffer, if there
/// is room for one.
fn draw_below(rng: &mut ThreadRng, player: i32, max: i32) -> (draw: Option<i32>)
    ensures
        draw is Some <==> room_below(player as int, max as int),
        draw matches Some(v) ==> -max <= v < player - SPAWN_BUFFER,
{
    let high: i64 = player as i64 - SPAWN_BUFFER as i64;
    let min: i64 = -(max as i64);
    if high > min {
        Some(gen_range(rng, min as i32, high as i32))
    } else {
        None
    }
}

/// Whether `position` may be drawn for a new enemy while the player stands
/// at `player`.
pub open spec fn valid_position(player: (i32, i32), position: (i32, i32)) -> bool {
    &&& valid_spawn(player.0 as int, WINDOW_MAX_X as int, position.0 as int)
    &&& valid_spawn(player.1 as int, WINDOW_MAX_Y as int, position.1 as int)
}

/// Whether a tick of `delta` nanoseconds brings new enemies: the cooldown
/// completes and the count is below the cap.
pub open spec fn spawn_due(timer: Cooldown, delta: nat, count: int) -> bool {
    timer.triggers(delta) && count < ENEMY_CAP
}

/// Whether `position` is at least the buffer away from `player` on both
/// axes.
pub open spec fn keeps_buffer(player: (i32, i32), position: (i32, i32)) -> bool {
    &&& position.0 - player.0 >= SPAWN_BUFFER || player.0 - position.0 >= SPAWN_BUFFER
    &&& position.1 - player.1 >= SPAWN_BUFFER || player.1 - position.1 >= SPAWN_BUFFER
}

/// Whether `position` lies in the arena.
pub open spec fn in_arena(position: (i32, i32)) -> bool {
    &&& -WINDOW_MAX_X <= position.0 <= WINDOW_MAX_X
    &&& -WINDOW_MAX_Y <= position.1 <= WINDOW_MAX_Y
}

/// A random position for a new enemy, given where the player stands.
///
/// Each axis is drawn on its own, from the ranges that `valid_spawn` names.
/// The position keeps the buffer distance from the player on both axes, and
/// lies in the arena while the player does.
pub fn generate_xy_values(player_x: i32, player_y: i32) -> (position: (i32, i32))
    ensures
        valid_position((player_x, player_y), position),
        keeps_buffer((player_x, player_y), position),
        in_arena((player_x, player_y)) ==> in_arena(position),
{
    let mut rng = thread_rng();
    let x = draw_above(&mut rng, player_x, WINDOW_MAX_X);
    let x2 = draw_below(&mut rng, player_x, WINDOW_MAX_X);
    let y = draw_above(&mut rng, player_y, WINDOW_MAX_Y);
    let y2 = draw_below(&mut rng, player_y, WINDOW_MAX_Y);
    let choose_x: i32 = gen_range(&mut rng, 0, 2);
    let choose_y: i32 = gen_range(&mut rng, 0, 2);
    (choose_position(x, x2, choose_x == 0), choose_position(y, y2, choose_y == 0))
}

/// One tick of the spawner. When the tick completes the cooldown while the
/// count is below the cap, one enemy is placed for each player position, in
/// the order of `players`, and counted. The count is tested once, before
/// any of them is placed.
pub fn spawn_enemies(
    players: &Vec<(i32, i32)>,
    enemy_count: &mut EnemyCount,
    enemy_spawn_timer: &mut EnemySpawnTimer,
    delta: u64,
) -> (spawned: Vec<(i32, i32)>)
    requires
        players@.len() <= i32::MAX - ENEMY_CAP,
    ensures
        final(enemy_spawn_timer).0.elapsed_nanos() == old(enemy_spawn_timer).0.elapsed_after(
            delta as nat,
        ),
        final(enemy_spawn_timer).0.threshold_nanos() == old(
            enemy_spawn_timer,
        ).0.threshold_nanos(),
        !spawn_due(old(enemy_spawn_timer).0, delta as nat, old(enemy_count).0 as int) ==> {
            &&& spawned@.len() == 0
            &&& final(enemy_count).0 == old(enemy_count).0
        },
        spawn_due(old(enemy_spawn_timer).0, delta as nat, old(enemy_count).0 as int) ==> {
            &&& spawned@.len() == players@.len()
            &&& final(enemy_count).0 == old(enemy_count).0 + players@.len()
        },
        forall|i: int|
            0 <= i < spawned@.len() ==> {
                &&& valid_position(players@[i], #[trigger] spawned@[i])
                &&& keeps_buffer(players@[i], spawned@[i])
                &&& in_arena(players@[i]) ==> in_arena(spawned@[i])
            },
{
    let mut spawned: Vec<(i32, i32)> = Vec::new();
    let completed = enemy_spawn_timer.0.tick(delta);
    if completed && enemy_count.0 < ENEMY_CAP {
        let mut i: usize = 0;
        while i < players.len()
            invariant
                i <= players.len(),
                players@.len() <= i32::MAX - ENEMY_CAP,
                old(enemy_count).0 < ENEMY_CAP,
                enemy_count.0 == old(enemy_count).0 + i,
                spawned@.len() == i,
                forall|k: int|
                    0 <= k < i ==> {
                        &&& valid_position(players@[k], #[trigger] spawned@[k])
                        &&& keeps_buffer(players@[k], spawned@[k])
                        &&& in_arena(players@[k]) ==> in_arena(spawned@[k])
                    },
            decreases players.len() - i,
        {
            let position = generate_xy_values(players[i].0, players[i].1);
            spawned.push(position);
            enemy_count.0 = enemy_count.0 + 1;
            i = i + 1;
        }
    }
    spawned
}

/// In the arena, at least one of the two ranges has room on each axis,
/// wherever the player stands.
pub proof fn arena_has_room(player: int)
    ensures
        room_above(player, WINDOW_MAX_X as int) || room_below(player, WINDOW_MAX_X as int),
        room_above(player, WINDOW_MAX_Y as int) || room_below(player, WINDOW_MAX_Y as int),
{
}

/// On an axis with room, a spawn is at least the buffer away from the
/// player.
pub proof fn spawn_keeps_buffer(player: int, max: int, coordinate: int)
    requires
        valid_spawn(player, max, coordinate),
        room_above(player, max) || room_below(player, max),
    ensures
        coordinate - player >= SPAWN_BUFFER || player - coordinate >= SPAWN_BUFFER,
{
}

/// While the player stands inside the arena, so does a spawn.
pub proof fn spawn_stays_in_arena(player: int, max: int, coordinate: int)
    requires
        valid_spawn(player, max, coordinate),
        -max <= player <= max,
    ensures
        -max <= coordinate <= max,
{
}

/// A position that may be drawn keeps the buffer distance from the player
/// on both axes, wherever the player stands, and lies in the arena while the
/// player does.
pub proof fn position_keeps_buffer(player: (i32, i32), position: (i32, i32))
    requires
        valid_position(player, position),
    ensures
        keeps_buffer(player, position),
        in_arena(player) ==> in_arena(position),
{
}

} // verus!
