use param_sync::control::ControlValue;
use param_sync::stuff::{NanoStuff, Stuff, StuffMessage};

#[test]
fn update_full() {
    let a = NanoStuff::make_fake();
    let mut b = NanoStuff::make_different_from(&a);
    assert_ne!(a, b);
    b.update(StuffMessage::Stuff(a.clone()));
    assert_eq!(a, b);
}

#[test]
fn update_incrementally() {
    let mut a = NanoStuff::make_fake();
    let mut b = NanoStuff::make_different_from(&a);
    assert_ne!(a, b);
    let message = StuffMessage::AppleCount(a.apple_count() + 1);
    a.update(message.clone());
    b.update(message);
    assert_ne!(a, b);

    let message =
        StuffMessage::BananaQuality(ControlValue::from_units(b.banana_quality().units() / 3));
    a.update(message.clone());
    b.update(message);
    assert_ne!(a, b);

    let message = StuffMessage::CherryType(a.cherry_type().next_cherry());
    a.update(message.clone());
    b.update(message);
    assert_eq!(a, b);
}

#[test]
fn update_incrementally_with_full_structs() {
    let a_params = NanoStuff::make_fake();
    let b_params = NanoStuff::make_different_from(&a_params);
    let mut a = Stuff::new(a_params);
    let mut b = Stuff::new(b_params);
    assert_ne!(a, b);
    let message = StuffMessage::AppleCount(a.apple_count() + 1);
    a.update(message.clone());
    b.update(message);
    assert_ne!(a, b);

    let message =
        StuffMessage::BananaQuality(ControlValue::from_units(b.banana_quality().units() / 3));
    a.update(message.clone());
    b.update(message);
    assert_ne!(a, b);

    let message = StuffMessage::CherryType(a.cherry_type().next_cherry());
    a.update(message.clone());
    b.update(message);
    assert_eq!(a, b);
}

#[test]
fn core_struct_gets_notifications() {
    // The post-construction hook leaves derived data fresh; every field
    // change runs the post-mutation hook, which marks it stale.
    let mut a = Stuff::new(NanoStuff::make_fake());
    assert!(a.precomputed);
    let current = a.apple_count();
    a.update(StuffMessage::AppleCount(current + 1));
    assert!(!a.precomputed);
}

#[test]
fn applying_a_field_message_twice_is_idempotent() {
    let mut a = NanoStuff::make_fake();
    let message = StuffMessage::AppleCount(1234);
    a.update(message);
    let once = a;
    a.update(message);
    assert_eq!(a, once);
}

#[test]
fn different_state_differs_in_every_field() {
    let a = NanoStuff::make_fake();
    let b = NanoStuff::make_different_from(&a);
    assert_ne!(a.apple_count(), b.apple_count());
    assert_ne!(a.banana_quality(), b.banana_quality());
    assert_ne!(a.cherry_type(), b.cherry_type());
}
