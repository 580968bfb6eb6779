use param_sync::control::ControlValue;
use param_sync::entity::{Entity, EntityParams, OtherEntityMessage, Registry, SyncError};
use param_sync::misc::{Misc, MiscMessage, NanoMisc};
use param_sync::stuff::{NanoStuff, Stuff, StuffMessage};

enum AppMessages {
    Wrapper(usize, OtherEntityMessage),
}

#[test]
fn build_views() {
    let entities = vec![
        EntityParams::Stuff(NanoStuff::make_fake()),
        EntityParams::Misc(NanoMisc::make_fake()),
        EntityParams::Misc(NanoMisc::make_fake()),
    ];

    // Build custom views from entity getters
    for entity in entities.iter() {
        match entity {
            EntityParams::Stuff(_e) => {}
            EntityParams::Misc(_e) => {}
        }
    }

    // Build an automation matrix
    for _ in entities.iter().filter(|e| e.is_controller()) {
        println!("adding controller");
    }
    for entity in entities.iter().filter(|e| e.is_controllable()) {
        println!("adding controllable");
        for index in 0..entity.control_index_count() {
            if let Some(point_name) = entity.control_name_for_index(index) {
                println!("adding control point {}", point_name);
            } else {
                println!("couldn't find name for control point #{}", index);
            }
        }
    }
}

#[test]
fn handle_app_updates() {
    let mut entities = vec![
        EntityParams::Stuff(NanoStuff::make_fake()),
        EntityParams::Misc(NanoMisc::make_fake()),
        EntityParams::Misc(NanoMisc::make_fake()),
    ];

    // Handle an incoming message
    let message = StuffMessage::AppleCount(45);
    let wrapped_message = AppMessages::Wrapper(1, OtherEntityMessage::Stuff(message));

    let AppMessages::Wrapper(uid, message) = wrapped_message;
    let entity = &mut entities[uid];
    match message {
        OtherEntityMessage::Stuff(message) => {
            if let EntityParams::Stuff(entity) = entity {
                entity.update(message);
            }
        }
        OtherEntityMessage::Misc(message) => {
            if let EntityParams::Misc(entity) = entity {
                entity.update(message);
            }
        }
    }
}

#[test]
fn engine_usage() {
    let a = Stuff::new(NanoStuff::make_fake());
    let next_cherry = a.cherry_type().next_cherry();
    let mut ea = Entity::Stuff(a);

    if let Some(message) = ea.message_for(0, &ControlValue::from_count(50)) {
        let _ = ea.update(message);
    }
    if let Some(message) = ea.message_for(1, &ControlValue::from_units(14_159_265)) {
        let _ = ea.update(message);
    }
    if let Some(message) = ea.message_for(2, &next_cherry.to_control()) {
        let _ = ea.update(message);
    }

    if let Entity::Stuff(a) = ea {
        assert_eq!(a.apple_count(), 50);
        assert_eq!(a.banana_quality(), ControlValue::from_units(14_159_265));
        assert_eq!(a.cherry_type(), next_cherry);
    }
}

#[test]
fn erased_entities_address_fields_by_name() {
    let mut ea = Entity::Misc(Misc::new_with(NanoMisc::make_fake()));
    if let Some(message) = ea.message_for_name("dog-count", &ControlValue::from_count(12)) {
        let _ = ea.update(message);
    }
    match ea {
        Entity::Misc(e) => assert_eq!(e.dog_count(), 12),
        _ => panic!("entity changed type"),
    }

    let ea = Entity::Stuff(Stuff::new(NanoStuff::make_fake()));
    assert!(ea.message_for_name("cat-count", &ControlValue::from_count(1)).is_none());
}

#[test]
fn registry_assigns_unique_identities_in_order() {
    let mut registry = Registry::new();
    let u0 = registry.register(Entity::Stuff(Stuff::new(NanoStuff::make_fake())));
    let u1 = registry.register(Entity::Misc(Misc::new_with(NanoMisc::make_fake())));
    let u2 = registry.register(Entity::Misc(Misc::new_with(NanoMisc::make_fake())));
    assert_eq!((u0, u1, u2), (0, 1, 2));
    assert_eq!(registry.len(), 3);
    assert_eq!(registry.get(1).unwrap().uid(), 1);
    assert!(registry.get(3).is_none());
}

#[test]
fn route_applies_matching_messages() {
    let mut registry = Registry::new();
    let stuff_uid = registry.register(Entity::Stuff(Stuff::new(NanoStuff::make_fake())));
    let misc_uid = registry.register(Entity::Misc(Misc::new_with(NanoMisc::make_fake())));

    let sent = registry.route(stuff_uid, OtherEntityMessage::Stuff(StuffMessage::AppleCount(77)));
    assert_eq!(sent, Ok(()));
    match registry.get(stuff_uid) {
        Some(Entity::Stuff(e)) => assert_eq!(e.apple_count(), 77),
        _ => panic!("entity lost or changed type"),
    }

    let sent = registry.route(misc_uid, OtherEntityMessage::Misc(MiscMessage::CatCount(3)));
    assert_eq!(sent, Ok(()));
    match registry.get(misc_uid) {
        Some(Entity::Misc(e)) => assert_eq!(e.cat_count(), 3),
        _ => panic!("entity lost or changed type"),
    }
}

#[test]
fn route_reports_misses_and_mismatches_apart() {
    let mut registry = Registry::new();
    let stuff_uid = registry.register(Entity::Stuff(Stuff::new(NanoStuff::make_fake())));
    let before = match registry.get(stuff_uid) {
        Some(Entity::Stuff(e)) => e.nano(),
        _ => panic!("entity lost"),
    };

    let missed = registry.route(9, OtherEntityMessage::Stuff(StuffMessage::AppleCount(1)));
    assert_eq!(missed, Err(SyncError::AddressingMiss));

    let mismatched = registry.route(stuff_uid, OtherEntityMessage::Misc(MiscMessage::CatCount(1)));
    assert_eq!(mismatched, Err(SyncError::TypeMismatch));

    let after = match registry.get(stuff_uid) {
        Some(Entity::Stuff(e)) => e.nano(),
        _ => panic!("entity lost"),
    };
    assert_eq!(before, after);
}

#[test]
fn automation_matrix_is_reproducible() {
    let mut registry = Registry::new();
    registry.register(Entity::Stuff(Stuff::new(NanoStuff::make_fake())));
    registry.register(Entity::Misc(Misc::new_with(NanoMisc::make_fake())));
    registry.register(Entity::Misc(Misc::new_with(NanoMisc::make_fake())));

    assert_eq!(registry.controller_uids(), vec![0]);
    assert_eq!(registry.controllable_uids(), vec![0, 1, 2]);

    let points = registry.control_points();
    let expected: Vec<(usize, usize)> =
        vec![(0, 0), (0, 1), (0, 2), (1, 0), (1, 1), (2, 0), (2, 1)];
    assert_eq!(points.len(), expected.len());
    for (point, (uid, index)) in points.iter().zip(expected.iter()) {
        assert_eq!((point.uid, point.index), (*uid, *index));
    }
}
