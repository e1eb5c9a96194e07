//! Bullets: when the player's trigger lets one go, where it appears, how it
//! flies and how long it lives.

use bevy_ecs::entity::Entity;
use vstd::prelude::*;

use crate::direction::{determine_direction, offset_for, Direction};
use crate::input::KeyboardInput;
use crate::timer::Cooldown;

verus! {

/// Speed that every bullet carries, in units per second.
pub const BULLET_SPEED: i32 = 30;

/// Distance from the shooter at which a bullet appears along a cardinal
/// heading, in units.
pub const SPAWN_DISTANCE: i32 = 21;

/// Held-fire time between two shots: 0.15 s.
pub const FIRE_COOLDOWN_NANOS: u64 = 150_000_000;

/// Time between two pushes of the bullets' velocities: 0.1 s.
pub const BULLET_SPEED_NANOS: u64 = 100_000_000;

/// Time that a bullet lives: 1.5 s.
pub const BULLET_LIFETIME_NANOS: u64 = 1_500_000_000;

/// A bullet, with its speed in units per second.
#[derive(Debug, Clone, Copy, PartialEq, Eq)]
pub struct Bullet(pub i32);

/// Names the entity that a shot comes from.
#[derive(Debug, Clone, Copy, PartialEq, Eq)]
pub struct ShootEvent(pub Entity);

/// The cooldown between two shots of held fire.
#[derive(Debug, Clone, Copy, PartialEq, Eq)]
pub struct BulletTimer(pub Cooldown);

/// The cooldown between two pushes of the bullets' velocities.
#[derive(Debug, Clone, Copy, PartialEq, Eq)]
pub struct BulletSpeedTimer(pub Cooldown);

/// The countdown to a bullet's end.
#[derive(Debug, Clone, Copy, PartialEq, Eq)]
pub struct BulletLifetime(pub Cooldown);

/// The player's trigger. It carries no cooldown until the first shot.
#[derive(Debug, Clone, Copy, PartialEq, Eq)]
pub struct FireControl {
    cooldown: Option<BulletTimer>,
}

/// What it takes to put a new bullet into the world.
#[derive(Debug, Clone, Copy, PartialEq, Eq)]
pub struct BulletSpawn {
    /// The heading of the bullet.
    pub direction: Direction,
    /// Where the bullet's body appears, seen from the shooter, in tenths of
    /// a unit.
    pub offset: (i32, i32),
    /// The bullet itself.
    pub bullet: Bullet,
    /// The countdown to its end.
    pub lifetime: BulletLifetime,
}

/// Where a bullet with the given heading appears, seen from the shooter, in
/// tenths of a unit: the heading's offset scaled by the spawn distance.
pub open spec fn spawn_offset(direction: Direction) -> (int, int) {
    (SPAWN_DISTANCE * direction.offset().0, SPAWN_DISTANCE * direction.offset().1)
}

/// The velocity of a bullet with the given heading and speed, in tenths of a
/// unit per second: the heading's offset scaled by the speed.
pub open spec fn velocity(direction: Direction, speed: int) -> (int, int) {
    (speed * direction.offset().0, speed * direction.offset().1)
}

/// Whether `spawn` is a fresh bullet with the given heading.
pub open spec fn fresh_bullet(spawn: BulletSpawn, direction: Direction) -> bool {
    &&& spawn.direction == direction
    &&& spawn.offset.0 == spawn_offset(direction).0
    &&& spawn.offset.1 == spawn_offset(direction).1
    &&& spawn.bullet.0 == BULLET_SPEED
    &&& spawn.lifetime.0.elapsed_nanos() == 0
    &&& spawn.lifetime.0.threshold_nanos() == BULLET_LIFETIME_NANOS
}

/// Whether a tick of `delta` nanoseconds lets a shot go. `cooling` is the
/// time on the trigger's cooldown, or none where it carries no cooldown yet.
/// With fire held, a trigger without a cooldown shoots at once; one with a
/// cooldown shoots when the tick completes it.
pub open spec fn fires(cooling: Option<nat>, held: bool, delta: nat) -> bool {
    held && match cooling {
        None => true,
        Some(elapsed) => elapsed + delta >= FIRE_COOLDOWN_NANOS,
    }
}

/// The time on the trigger's cooldown once the tick is over. Time runs on
/// the cooldown only while fire is held.
pub open spec fn cooling_after(cooling: Option<nat>, held: bool, delta: nat) -> Option<nat> {
    if !held {
        cooling
    } else {
        match cooling {
            None => Some(0),
            Some(elapsed) => if elapsed + delta >= FIRE_COOLDOWN_NANOS {
                Some(0)
            } else {
                Some(elapsed + delta)
            },
        }
    }
}

impl FireControl {
    /// A cooldown on the trigger is the one between two shots.
    #[verifier::type_invariant]
    spec fn cooldown_is_fire_cooldown(self) -> bool {
        self.cooldown matches Some(timer) ==> timer.0.threshold_nanos() == FIRE_COOLDOWN_NANOS
    }

    /// The time on the trigger's cooldown, or none where it carries no
    /// cooldown yet.
    pub closed spec fn cooling(self) -> Option<nat> {
        match self.cooldown {
            Some(timer) => Some(timer.0.elapsed_nanos()),
            None => None,
        }
    }

    /// A trigger that has not been pulled yet.
    pub fn new() -> (control: FireControl)
        ensures
            control.cooling() is None,
    {
        FireControl { cooldown: None }
    }

    /// The cooldown on the trigger, if it carries one.
    pub fn cooldown(&self) -> (timer: Option<BulletTimer>)
        ensures
            timer is Some <==> self.cooling() is Some,
            timer matches Some(t) ==> self.cooling() == Some(t.0.elapsed_nanos())
                && t.0.threshold_nanos() == FIRE_COOLDOWN_NANOS,
    {
        proof {
            use_type_invariant(self);
        }
        self.cooldown
    }
}

/// Prepares a bullet that flies where the arrow keys aim, and remembers that
/// heading as the last one.
pub fn create_bullet(keyboard_input: &KeyboardInput, default_direction: &mut Direction) -> (spawn:
    BulletSpawn)
    ensures
        fresh_bullet(spawn, crate::direction::aim(*keyboard_input, *old(default_direction))),
        *final(default_direction) == spawn.direction,
{
    let direction = determine_direction(keyboard_input, default_direction);
    let unit = offset_for(direction);
    BulletSpawn {
        direction,
        offset: (SPAWN_DISTANCE * unit.0, SPAWN_DISTANCE * unit.1),
        bullet: Bullet(BULLET_SPEED),
        lifetime: BulletLifetime(Cooldown::from_nanos(BULLET_LIFETIME_NANOS)),
    }
}

/// The velocity of a bullet, in tenths of a unit per second.
pub fn bullet_velocity(direction: Direction, bullet: &Bullet) -> (v: (i64, i64))
    ensures
        v.0 == velocity(direction, bullet.0 as int).0,
        v.1 == velocity(direction, bullet.0 as int).1,
{
    let unit = offset_for(direction);
    let speed: i64 = bullet.0 as i64;
    let x: i64 = unit.0 as i64;
    let y: i64 = unit.1 as i64;
    assert(-0x5_0000_0000 <= speed * x <= 0x5_0000_0000 && -0x5_0000_0000 <= speed * y
        <= 0x5_0000_0000) by (nonlinear_arith)
        requires
            -0x8000_0000 <= speed < 0x8000_0000,
            -10 <= x <= 10,
            -10 <= y <= 10,
    ;
    (speed * x, speed * y)
}

/// One tick of the trigger. While fire is held, the first pull shoots at
/// once and puts a cooldown on the trigger; after that a shot goes whenever
/// the cooldown completes. A shot flies where the arrow keys aim, and that
/// heading becomes the last one.
pub fn spawn_bullet(
    keyboard_input: &KeyboardInput,
    control: &mut FireControl,
    last_direction: &mut Direction,
    delta: u64,
) -> (shot: Option<BulletSpawn>)
    ensures
        shot is Some <==> fires(old(control).cooling(), keyboard_input.space, delta as nat),
        final(control).cooling() == cooling_after(
            old(control).cooling(),
            keyboard_input.space,
            delta as nat,
        ),
        shot matches Some(spawn) ==> fresh_bullet(
            spawn,
            crate::direction::aim(*keyboard_input, *old(last_direction)),
        ) && *final(last_direction) == spawn.direction,
        shot is None ==> *final(last_direction) == *old(last_direction),
{
    proof {
        use_type_invariant(&*control);
    }
    if !keyboard_input.space {
        return None;
    }
    match control.cooldown {
        None => {
            control.cooldown = Some(BulletTimer(Cooldown::from_nanos(FIRE_COOLDOWN_NANOS)));
            Some(create_bullet(keyboard_input, last_direction))
        },
        Some(mut timer) => {
            let completed = timer.0.tick(delta);
            control.cooldown = Some(timer);
            if completed {
                Some(create_bullet(keyboard_input, last_direction))
            } else {
                None
            }
        },
    }
}

/// One tick of the bullets' flight. When the tick completes `timer`, every
/// bullet has its velocity pushed again, in tenths of a unit per second and
/// in the order of `bullets`; on any other tick nothing is pushed.
pub fn move_bullets(timer: &mut BulletSpeedTimer, delta: u64, bullets: &Vec<(Direction, Bullet)>) -> (pushed:
    Vec<(i64, i64)>)
    ensures
        final(timer).0.elapsed_nanos() == old(timer).0.elapsed_after(delta as nat),
        final(timer).0.threshold_nanos() == old(timer).0.threshold_nanos(),
        !old(timer).0.triggers(delta as nat) ==> pushed@.len() == 0,
        old(timer).0.triggers(delta as nat) ==> pushed@.len() == bullets@.len(),
        forall|i: int|
            0 <= i < pushed@.len() ==> {
                &&& (#[trigger] pushed@[i]).0 == velocity(bullets@[i].0, bullets@[i].1.0 as int).0
                &&& pushed@[i].1 == velocity(bullets@[i].0, bullets@[i].1.0 as int).1
            },
{
    let mut pushed: Vec<(i64, i64)> = Vec::new();
    if timer.0.tick(delta) {
        let mut i: usize = 0;
        while i < bullets.len()
            invariant
                i <= bullets.len(),
                pushed@.len() == i,
                forall|k: int|
                    0 <= k < i ==> {
                        &&& (#[trigger] pushed@[k]).0 == velocity(
                            bullets@[k].0,
                            bullets@[k].1.0 as int,
                        ).0
                        &&& pushed@[k].1 == velocity(bullets@[k].0, bullets@[k].1.0 as int).1
                    },
            decreases bullets.len() - i,
        {
            let v = bullet_velocity(bullets[i].0, &bullets[i].1);
            pushed.push(v);
            i = i + 1;
        }
    }
    pushed
}

impl BulletLifetime {
    /// One tick of a bullet's life: whether the bullet is to be removed now.
    /// The countdown starts again when it completes, so a bullet that is
    /// left alive is due again one lifetime later.
    pub fn despawn_due(&mut self, delta: u64) -> (due: bool)
        ensures
            due == old(self).0.triggers(delta as nat),
            final(self).0.elapsed_nanos() == old(self).0.elapsed_after(delta as nat),
            final(self).0.threshold_nanos() == old(self).0.threshold_nanos(),
    {
        self.0.tick(delta)
    }
}

/// The sum of the ticks.
pub open spec fn total(deltas: Seq<nat>) -> nat
    decreases deltas.len(),
{
    if deltas.len() == 0 {
        0
    } else {
        deltas[0] + total(deltas.drop_first())
    }
}

/// The number of shots that go while fire is held through the ticks in
/// `deltas`, one after the other.
pub open spec fn held_shots(cooling: Option<nat>, deltas: Seq<nat>) -> nat
    decreases deltas.len(),
{
    if deltas.len() == 0 {
        0
    } else {
        let shot: nat = if fires(cooling, true, deltas[0]) {
            1
        } else {
            0
        };
        shot + held_shots(cooling_after(cooling, true, deltas[0]), deltas.drop_first())
    }
}

/// With the fire key up nothing goes and the trigger stays as it is.
pub proof fn released_fire_is_idle(cooling: Option<nat>, delta: nat)
    ensures
        !fires(cooling, false, delta),
        cooling_after(cooling, false, delta) == cooling,
{
}

/// While the ticks on a running cooldown add up to less than the time
/// between two shots, held fire lets no shot go.
pub proof fn cooldown_holds_fire(elapsed: nat, deltas: Seq<nat>)
    requires
        elapsed + total(deltas) < FIRE_COOLDOWN_NANOS,
    ensures
        held_shots(Some(elapsed), deltas) == 0,
    decreases deltas.len(),
{
    if deltas.len() > 0 {
        cooldown_holds_fire(elapsed + deltas[0], deltas.drop_first());
    }
}

/// Held fire shoots at once on the first tick, and not again while the
/// later ticks add up to less than the time between two shots.
pub proof fn first_pull_shoots_once(deltas: Seq<nat>)
    requires
        deltas.len() > 0,
        total(deltas.drop_first()) < FIRE_COOLDOWN_NANOS,
    ensures
        fires(None, true, deltas[0]),
        held_shots(None, deltas) == 1,
{
    cooldown_holds_fire(0, deltas.drop_first());
}

/// A diagonal bullet flies with `0.7` of its speed along both axes, a
/// cardinal one with its whole speed along one axis and none along the
/// other.
pub proof fn velocity_components(direction: Direction, speed: int)
    ensures
        direction.is_diagonal() ==> velocity(direction, speed) == (
            direction.horizontal() * (7 * speed),
            direction.vertical() * (7 * speed),
        ),
        !direction.is_diagonal() ==> velocity(direction, speed) == (
            direction.horizontal() * (10 * speed),
            direction.vertical() * (10 * speed),
        ),
{
    let length: int = if direction.is_diagonal() {
        7
    } else {
        10
    };
    let h = direction.horizontal();
    let v = direction.vertical();
    assert(speed * (h * length) == h * (length * speed)) by (nonlinear_arith);
    assert(speed * (v * length) == v * (length * speed)) by (nonlinear_arith);
}

} // verus!
