use arena_shooter::collision::{
    classify_contact, collect_contacts, handle_contacts, resolve_contacts, ContactPair,
    ContactSide, Contacts,
};
use bevy_ecs::entity::Entity;

fn bullet(id: u32) -> Option<ContactSide> {
    Some(ContactSide { entity: Entity::new(id), is_bullet: true, is_enemy: false })
}

fn enemy(id: u32) -> Option<ContactSide> {
    Some(ContactSide { entity: Entity::new(id), is_bullet: false, is_enemy: true })
}

fn untagged(id: u32) -> Option<ContactSide> {
    Some(ContactSide { entity: Entity::new(id), is_bullet: false, is_enemy: false })
}

fn pair(first: Option<ContactSide>, second: Option<ContactSide>) -> ContactPair {
    ContactPair { first, second }
}

#[test]
fn bullet_meeting_enemy_gives_one_record_and_removes_both() {
    let events = vec![pair(bullet(1), enemy(2))];
    let contacts = collect_contacts(&events);
    assert_eq!(contacts, vec![Contacts::BulletEnemy(Entity::new(1), Entity::new(2))]);
    assert_eq!(resolve_contacts(&contacts), vec![Entity::new(1), Entity::new(2)]);
    assert_eq!(handle_contacts(&events), vec![Entity::new(1), Entity::new(2)]);
}

#[test]
fn record_names_the_bullet_first_whichever_side_it_was_on() {
    let record = classify_contact(&pair(enemy(2), bullet(1)));
    assert_eq!(record, Some(Contacts::BulletEnemy(Entity::new(1), Entity::new(2))));
    assert_eq!(handle_contacts(&vec![pair(enemy(2), bullet(1))]), vec![
        Entity::new(1),
        Entity::new(2)
    ]);
}

#[test]
fn two_bullets_give_no_record() {
    assert_eq!(classify_contact(&pair(bullet(1), bullet(2))), None);
    assert!(collect_contacts(&vec![pair(bullet(1), bullet(2))]).is_empty());
    assert!(handle_contacts(&vec![pair(bullet(1), bullet(2))]).is_empty());
}

#[test]
fn contacts_without_a_bullet_or_without_an_enemy_give_no_record() {
    assert_eq!(classify_contact(&pair(enemy(1), enemy(2))), None);
    assert_eq!(classify_contact(&pair(bullet(1), untagged(2))), None);
    assert_eq!(classify_contact(&pair(untagged(1), enemy(2))), None);
    assert_eq!(classify_contact(&pair(untagged(1), untagged(2))), None);
}

#[test]
fn a_side_that_is_no_longer_live_drops_the_contact() {
    assert_eq!(classify_contact(&pair(None, enemy(2))), None);
    assert_eq!(classify_contact(&pair(bullet(1), None)), None);
    assert_eq!(classify_contact(&pair(None, None)), None);
}

#[test]
fn a_dropped_contact_leaves_the_rest_of_the_batch_alone() {
    let with_gap = vec![pair(bullet(1), enemy(2)), pair(bullet(3), None), pair(enemy(5), bullet(4))];
    let without = vec![pair(bullet(1), enemy(2)), pair(enemy(5), bullet(4))];
    assert_eq!(collect_contacts(&with_gap), collect_contacts(&without));
    assert_eq!(handle_contacts(&with_gap), vec![
        Entity::new(1),
        Entity::new(2),
        Entity::new(4),
        Entity::new(5)
    ]);
}

#[test]
fn a_side_with_both_tags_counts_as_a_bullet() {
    let both = Some(ContactSide { entity: Entity::new(9), is_bullet: true, is_enemy: true });
    assert_eq!(
        classify_contact(&pair(both, enemy(2))),
        Some(Contacts::BulletEnemy(Entity::new(9), Entity::new(2)))
    );
    assert_eq!(
        classify_contact(&pair(enemy(2), both)),
        Some(Contacts::BulletEnemy(Entity::new(9), Entity::new(2)))
    );
    assert_eq!(classify_contact(&pair(both, both)), None);
    assert_eq!(classify_contact(&pair(both, bullet(1))), None);
}

#[test]
fn records_keep_the_order_of_arrival() {
    let events = vec![
        pair(bullet(10), enemy(20)),
        pair(untagged(1), untagged(2)),
        pair(enemy(21), bullet(11)),
        pair(bullet(12), enemy(22)),
    ];
    assert_eq!(collect_contacts(&events), vec![
        Contacts::BulletEnemy(Entity::new(10), Entity::new(20)),
        Contacts::BulletEnemy(Entity::new(11), Entity::new(21)),
        Contacts::BulletEnemy(Entity::new(12), Entity::new(22)),
    ]);
}

#[test]
fn the_same_pair_met_twice_is_recorded_twice() {
    let events = vec![pair(bullet(1), enemy(2)), pair(enemy(2), bullet(1))];
    assert_eq!(collect_contacts(&events).len(), 2);
    assert_eq!(handle_contacts(&events), vec![
        Entity::new(1),
        Entity::new(2),
        Entity::new(1),
        Entity::new(2)
    ]);
}

#[test]
fn one_bullet_hitting_two_enemies_removes_all_three() {
    let events = vec![pair(bullet(1), enemy(2)), pair(bullet(1), enemy(3))];
    assert_eq!(handle_contacts(&events), vec![
        Entity::new(1),
        Entity::new(2),
        Entity::new(1),
        Entity::new(3)
    ]);
}

#[test]
fn an_empty_batch_removes_nothing() {
    assert!(collect_contacts(&Vec::new()).is_empty());
    assert!(resolve_contacts(&Vec::new()).is_empty());
    assert!(handle_contacts(&Vec::new()).is_empty());
}

#[test]
fn entities_are_told_apart_by_generation() {
    let old = Entity::from_bits(7);
    let new = Entity::from_bits((1u64 << 32) | 7);
    let events = vec![pair(
        Some(ContactSide { entity: new, is_bullet: true, is_enemy: false }),
        Some(ContactSide { entity: old, is_bullet: false, is_enemy: true }),
    )];
    assert_eq!(handle_contacts(&events), vec![new, old]);
}
