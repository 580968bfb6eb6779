use param_sync::control::ControlValue;
use param_sync::misc::{MiscMessage, NanoMisc};
use param_sync::stuff::{CherryType, NanoStuff, Stuff, StuffMessage};

#[test]
fn mirrored_entities_follow_emitted_messages() {
    let mut a = Stuff::new(NanoStuff {
        apple_count: 5,
        banana_quality: ControlValue::from_units(20_000_000),
        cherry_type: CherryType::Bing,
    });
    let mut b = Stuff::new(NanoStuff {
        apple_count: 6,
        banana_quality: ControlValue::from_units(90_000_000),
        cherry_type: CherryType::Black,
    });

    // A genuine change is emitted and follows to the mirror.
    let message = a.set_and_propagate_apple_count(6);
    assert_eq!(message, Some(StuffMessage::AppleCount(6)));
    b.update(message.unwrap());
    assert_eq!(b.apple_count(), 6);

    // Setting the same value again emits nothing; the mirror is untouched.
    let message = a.set_and_propagate_apple_count(6);
    assert!(message.is_none());
    assert_eq!(b.apple_count(), 6);
    assert_eq!(b.banana_quality(), ControlValue::from_units(90_000_000));
    assert_eq!(b.cherry_type(), CherryType::Black);

    // Stepping the enumeration nine times from Black wraps around; the
    // mirror receives every step and the two agree at the end.
    for _ in 0..9 {
        let next = b.cherry_type().next_cherry();
        let message = b.set_and_propagate_cherry_type(next);
        assert!(message.is_some());
        a.update(message.unwrap());
    }
    assert_eq!(a.cherry_type(), b.cherry_type());
    assert_eq!(a.cherry_type(), CherryType::Bing);
}

#[test]
fn index_past_addressable_fields_produces_nothing() {
    let a = Stuff::new(NanoStuff::make_fake());
    assert_eq!(a.control_index_count(), 3);
    assert!(a.message_for_index(10, &ControlValue::from_units(50_000_000)).is_none());
}

#[test]
fn no_message_for_unchanged_values() {
    let mut n = NanoMisc::make_fake();
    let current = n.cat_count();
    assert!(n.set_and_propagate_cat_count(current).is_none());
    let changed = n.set_and_propagate_cat_count(current + 1);
    assert_eq!(changed, Some(MiscMessage::CatCount(current + 1)));
    assert!(n.set_and_propagate_dog_count(n.dog_count()).is_none());

    let mut s = NanoStuff::make_fake();
    let quality = s.banana_quality();
    assert!(s.set_and_propagate_banana_quality(quality).is_none());
    let kind = s.cherry_type();
    assert!(s.set_and_propagate_cherry_type(kind).is_none());
}
