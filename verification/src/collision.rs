//! Contact resolution: which contacts of a tick are a bullet hitting an
//! enemy, and what is removed for them.

use bevy_ecs::entity::Entity;
use vstd::prelude::*;

verus! {

/// `bevy_ecs::entity::Entity`: the identifier of a game entity. The library
/// carries it through and never looks inside.
#[verifier::external_type_specification]
#[verifier::external_body]
pub struct ExEntity(Entity);

/// One side of a contact, once its body has been traced back to a live game
/// entity and that entity's tags have been looked up.
#[derive(Debug, Clone, Copy)]
pub struct ContactSide {
    /// The entity that owns the body.
    pub entity: Entity,
    /// Whether the entity carries the bullet tag.
    pub is_bullet: bool,
    /// Whether the entity carries the enemy tag.
    pub is_enemy: bool,
}

/// A contact that began this tick. A side is `None` where its body no longer
/// leads to a live entity.
#[derive(Debug, Clone, Copy)]
pub struct ContactPair {
    /// The side that the engine names first.
    pub first: Option<ContactSide>,
    /// The side that the engine names second.
    pub second: Option<ContactSide>,
}

/// A contact between game entities that the game reacts to.
#[derive(Debug, Clone, Copy, PartialEq, Eq)]
pub enum Contacts {
    /// A bullet has hit an enemy: the bullet's entity, then the enemy's.
    BulletEnemy(Entity, Entity),
}

/// Whether `bullet` is the one bullet of the pair and `enemy` an enemy.
pub open spec fn hits(bullet: ContactSide, enemy: ContactSide) -> bool {
    bullet.is_bullet && !enemy.is_bullet && enemy.is_enemy
}

/// The record that a contact gives rise to, if any: a contact counts where
/// both sides are live, exactly one of them is a bullet and the other one is
/// an enemy. The record names the bullet first, whichever side it was on.
pub open spec fn classify(pair: ContactPair) -> Option<Contacts> {
    match (pair.first, pair.second) {
        (Some(first), Some(second)) => if hits(first, second) {
            Some(Contacts::BulletEnemy(first.entity, second.entity))
        } else if hits(second, first) {
            Some(Contacts::BulletEnemy(second.entity, first.entity))
        } else {
            None
        },
        _ => None,
    }
}

/// Classifies one contact.
pub fn classify_contact(pair: &ContactPair) -> (record: Option<Contacts>)
    ensures
        record == classify(*pair),
{
    match (pair.first, pair.second) {
        (Some(first), Some(second)) => {
            if first.is_bullet && !second.is_bullet && second.is_enemy {
                Some(Contacts::BulletEnemy(first.entity, second.entity))
            } else if second.is_bullet && !first.is_bullet && first.is_enemy {
                Some(Contacts::BulletEnemy(second.entity, first.entity))
            } else {
                None
            }
        },
        _ => None,
    }
}

/// The records of a batch of contacts, in the order in which the contacts
/// arrived. Each contact is judged on its own: one that gives no record
/// leaves the others as they are, and a pair met twice is recorded twice.
pub open spec fn records(events: Seq<ContactPair>) -> Seq<Contacts>
    decreases events.len(),
{
    if events.len() == 0 {
        Seq::empty()
    } else {
        let earlier = records(events.drop_last());
        match classify(events.last()) {
            Some(record) => earlier.push(record),
            None => earlier,
        }
    }
}

/// The entities to remove for a batch of records: for each record in turn
/// its bullet, then its enemy.
pub open spec fn despawns(contacts: Seq<Contacts>) -> Seq<Entity> {
    Seq::new(
        2 * contacts.len(),
        |i: int|
            match contacts[i / 2] {
                Contacts::BulletEnemy(bullet, enemy) => if i % 2 == 0 {
                    bullet
                } else {
                    enemy
                },
            },
    )
}

/// Collects the records of a batch of contacts.
pub fn collect_contacts(events: &Vec<ContactPair>) -> (contacts: Vec<Contacts>)
    ensures
        contacts@ == records(events@),
{
    let mut contacts: Vec<Contacts> = Vec::new();
    let mut i: usize = 0;
    while i < events.len()
        invariant
            i <= events.len(),
            contacts@ == records(events@.take(i as int)),
        decreases events.len() - i,
    {
        proof {
            let next = events@.take(i + 1);
            assert(next.drop_last() == events@.take(i as int));
            assert(next.last() == events@[i as int]);
        }
        match classify_contact(&events[i]) {
            Some(record) => {
                contacts.push(record);
            },
            None => {},
        }
        i = i + 1;
    }
    proof {
        assert(events@.take(i as int) == events@);
    }
    contacts
}

/// Lists what to remove for a batch of records. Every record has both of
/// its entities removed, whether or not an earlier record named them.
pub fn resolve_contacts(contacts: &Vec<Contacts>) -> (removed: Vec<Entity>)
    ensures
        removed@ == despawns(contacts@),
{
    let mut removed: Vec<Entity> = Vec::new();
    let mut i: usize = 0;
    while i < contacts.len()
        invariant
            i <= contacts.len(),
            removed@ == despawns(contacts@.take(i as int)),
        decreases contacts.len() - i,
    {
        match contacts[i] {
            Contacts::BulletEnemy(bullet, enemy) => {
                proof {
                    despawns_of_next_record(contacts@.take(i as int), bullet, enemy);
                    assert(contacts@.take(i + 1) == contacts@.take(i as int).push(contacts@[i as int]));
                }
                removed.push(bullet);
                removed.push(enemy);
            },
        }
        i = i + 1;
    }
    proof {
        assert(contacts@.take(i as int) == contacts@);
    }
    removed
}

/// Resolves the contacts of one tick: classifies each, in the order in which
/// they arrived, and lists the entities to remove for the bullet hits among
/// them.
pub fn handle_contacts(events: &Vec<ContactPair>) -> (removed: Vec<Entity>)
    ensures
        removed@ == despawns(records(events@)),
{
    let contacts = collect_contacts(events);
    resolve_contacts(&contacts)
}

/// A bullet meeting an enemy is recorded, bullet first, whichever side of
/// the contact the bullet is on.
pub proof fn bullet_enemy_is_recorded(bullet: ContactSide, enemy: ContactSide)
    requires
        bullet.is_bullet,
        !enemy.is_bullet,
        enemy.is_enemy,
    ensures
        classify(ContactPair { first: Some(bullet), second: Some(enemy) }) == Some(
            Contacts::BulletEnemy(bullet.entity, enemy.entity),
        ),
        classify(ContactPair { first: Some(enemy), second: Some(bullet) }) == Some(
            Contacts::BulletEnemy(bullet.entity, enemy.entity),
        ),
{
}

/// A contact is recorded only where exactly one side is a bullet and the
/// other side is an enemy, both of them live.
pub proof fn record_needs_bullet_and_enemy(pair: ContactPair)
    requires
        classify(pair) is Some,
    ensures
        pair.first is Some,
        pair.second is Some,
        pair.first->0.is_bullet != pair.second->0.is_bullet,
        pair.first->0.is_bullet ==> pair.second->0.is_enemy,
        pair.second->0.is_bullet ==> pair.first->0.is_enemy,
{
}

/// The records of two batches, one after the other, are the records of the
/// first followed by those of the second.
pub proof fn records_of_batches(earlier: Seq<ContactPair>, later: Seq<ContactPair>)
    ensures
        records(earlier + later) == records(earlier) + records(later),
    decreases later.len(),
{
    if later.len() == 0 {
        assert(earlier + later == earlier);
        assert(records(earlier) + records(later) == records(earlier));
    } else {
        records_of_batches(earlier, later.drop_last());
        assert((earlier + later).drop_last() == earlier + later.drop_last());
        assert((earlier + later).last() == later.last());
        match classify(later.last()) {
            Some(record) => {
                assert((records(earlier) + records(later.drop_last())).push(record) == records(
                    earlier,
                ) + records(later.drop_last()).push(record));
            },
            None => {},
        }
    }
}

/// A contact that gives no record changes nothing for the contacts around
/// it.
pub proof fn dropped_contact_is_skipped(
    earlier: Seq<ContactPair>,
    dropped: ContactPair,
    later: Seq<ContactPair>,
)
    requires
        classify(dropped) is None,
    ensures
        records(earlier.push(dropped) + later) == records(earlier + later),
{
    records_of_batches(earlier.push(dropped), later);
    records_of_batches(earlier, later);
    assert(earlier.push(dropped).drop_last() == earlier);
}

/// A recorded contact adds its bullet and its enemy, in that order, to what
/// is removed.
pub proof fn despawns_of_next_record(contacts: Seq<Contacts>, bullet: Entity, enemy: Entity)
    ensures
        despawns(contacts.push(Contacts::BulletEnemy(bullet, enemy))) == despawns(contacts).push(
            bullet,
        ).push(enemy),
{
    let longer = contacts.push(Contacts::BulletEnemy(bullet, enemy));
    let removed = despawns(contacts).push(bullet).push(enemy);
    assert forall|k: int| 0 <= k < removed.len() implies removed[k] == despawns(longer)[k] by {
        if k < 2 * contacts.len() {
            assert(longer[k / 2] == contacts[k / 2]);
        } else {
            assert(k / 2 == contacts.len());
        }
    }
    assert(despawns(longer) == removed);
}

} // verus!
