use param_sync::control::{ControlValue, CONTROL_ONE};
use param_sync::misc::{misc_field_descriptors, Misc, NanoMisc};
use param_sync::schema::FieldKind;
use param_sync::stuff::{stuff_field_descriptors, CherryType, NanoStuff, Stuff, StuffMessage};

#[test]
fn control_params_by_name() {
    let a_params = NanoStuff::make_fake();
    let b_params = NanoStuff::make_different_from(&a_params);
    let a = Stuff::new(a_params);
    let mut b = Stuff::new(b_params);
    assert_ne!(a, b);

    if let Some(message) = b.message_for_name("apple-count", &ControlValue::from_count(a.apple_count()))
    {
        b.update(message);
    }
    assert_ne!(a, b);
    if let Some(message) = b.message_for_name("banana-quality", &a.banana_quality()) {
        b.update(message);
    }
    assert_ne!(a, b);
    if let Some(message) = b.message_for_name("cherry-type", &a.cherry_type().to_control()) {
        b.update(message);
    }
    assert_eq!(a, b);
}

#[test]
fn control_params_by_index() {
    let a_params = NanoStuff::make_fake();
    let b_params = NanoStuff::make_different_from(&a_params);
    let a = Stuff::new(a_params);
    let mut b = Stuff::new(b_params);
    assert_ne!(a, b);

    // The whole-state message is excluded from the index.
    assert_eq!(a.control_index_count(), 3);

    if let Some(message) = b.message_for_index(0, &ControlValue::from_count(a.apple_count())) {
        b.update(message);
    }
    assert_ne!(a, b);
    if let Some(message) = b.message_for_index(1, &a.banana_quality()) {
        b.update(message);
    }
    assert_ne!(a, b);
    if let Some(message) = b.message_for_index(2, &a.cherry_type().to_control()) {
        b.update(message);
    }
    assert_eq!(a, b);
}

#[test]
fn control_ergonomics() {
    let a = Stuff::new(NanoStuff::make_fake());

    assert_eq!(a.control_name_for_index(2), Some("cherry-type"));
    assert_eq!(a.control_index_count(), 3);
    assert_eq!(a.control_name_for_index(a.control_index_count()), None);

    let a = NanoMisc::make_fake();

    assert_eq!(a.control_name_for_index(0), Some("cat-count"));
    assert_eq!(a.control_index_count(), 2);
    assert_eq!(a.control_name_for_index(a.control_index_count()), None);
}

#[test]
fn count_conversion_exact_values() {
    assert_eq!(ControlValue::from_count(7).units(), 700_000_000);
    assert_eq!(ControlValue::from_count(7).to_count(), 7);
    assert_eq!(ControlValue::from_units(14_159_265).to_count(), 0);
    assert_eq!(ControlValue::from_units(5_000_000_000).to_count(), 50);
}

#[test]
fn enum_conversion_exact_values() {
    assert_eq!(ControlValue::for_variant(3, 10).units(), 30_000_000);
    assert_eq!(ControlValue::from_units(30_000_000).variant_index(10), 3);
    assert_eq!(CherryType::Sour.to_control().units(), 60_000_000);
    assert_eq!(CherryType::from_control(&CherryType::Sour.to_control()), CherryType::Sour);
}

#[test]
fn enum_from_control_is_range_safe() {
    // One whole unit lies one past the last variant's band and fails
    // closed to the first variant, as does anything farther out.
    assert_eq!(CherryType::from_control(&ControlValue::from_units(CONTROL_ONE)), CherryType::Bing);
    assert_eq!(CherryType::from_control(&ControlValue::from_units(0)), CherryType::Bing);
    assert_eq!(
        CherryType::from_control(&ControlValue::from_units(CONTROL_ONE - 1)),
        CherryType::Yellow
    );
    assert_eq!(CherryType::from_control(&ControlValue::from_units(u64::MAX)), CherryType::Bing);
}

#[test]
fn normalized_clamps_into_unit_range() {
    assert_eq!(ControlValue::from_units(200_000_000).to_normalized().units(), CONTROL_ONE);
    assert_eq!(ControlValue::from_units(42).to_normalized().units(), 42);
}

#[test]
fn index_addressing_excludes_whole_state() {
    let a = Stuff::new(NanoStuff::make_fake());
    let half = ControlValue::from_units(50_000_000);
    assert!(a.message_for_index(10, &half).is_none());
    assert!(a.message_for_index(3, &half).is_none());
    for index in 0..a.control_index_count() {
        match a.message_for_index(index, &half) {
            Some(StuffMessage::Stuff(_)) => panic!("whole-state message reached by index"),
            Some(_) => {}
            None => panic!("addressable index produced no message"),
        }
    }
}

#[test]
fn unknown_name_is_a_miss_not_an_error() {
    let a = Stuff::new(NanoStuff::make_fake());
    assert!(a.message_for_name("durian-mass", &ControlValue::from_units(0)).is_none());
    let m = Misc::new_with(NanoMisc::make_fake());
    assert!(m.message_for_name("apple-count", &ControlValue::from_units(0)).is_none());
}

#[test]
fn descriptor_tables_list_fields_in_order() {
    let table = stuff_field_descriptors();
    assert_eq!(table.len(), 3);
    assert_eq!(table[0].name, "apple-count");
    assert_eq!(table[1].name, "banana-quality");
    assert_eq!(table[2].name, "cherry-type");
    assert!(matches!(table[0].kind, FieldKind::Count));
    assert!(matches!(table[1].kind, FieldKind::Normalized));
    assert!(matches!(table[2].kind, FieldKind::Enumeration { variant_count: 10 }));

    let table = misc_field_descriptors();
    assert_eq!(table.len(), 2);
    assert_eq!(table[0].name, "cat-count");
    assert_eq!(table[1].name, "dog-count");
}
