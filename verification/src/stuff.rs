//! An entity type with three synchronized fields — a count, a normalized
//! scalar, and a bounded enumeration — together with its update message
//! type, its field descriptor table, and its control addressing.
//!
//! [`NanoStuff`] is the entity's synchronized-field state: the payload of a
//! whole-entity replacement and the value a constructor takes. [`Stuff`] is
//! the full entity: an identity, the synchronized fields, and a derived-data
//! flag kept by the post-mutation hook.

use crate::control::{
    control_of_count, control_of_variant, count_of_control, lemma_variant_control_round_trip,
    normalized_of_control, variant_of_control, ControlValue, CONTROL_ONE,
};
use crate::rng::random_usize_in;
use crate::schema::{str_eq, FieldDescriptor, FieldKind};
use vstd::prelude::*;

verus! {

/// Number of variants of [`CherryType`].
pub const CHERRY_TYPE_COUNT: usize = 10;

/// Number of synchronized fields of [`Stuff`] (the whole-entity
/// pseudo-field not included).
pub const STUFF_FIELD_COUNT: usize = 3;

/// The bounded enumeration field's value set.
#[derive(Clone, Copy, Debug, PartialEq, Eq, Structural)]
pub enum CherryType {
    Bing,
    Black,
    Cornelian,
    Maraschino,
    QueenAnne,
    Ranier,
    Sour,
    Sweet,
    Van,
    Yellow,
}

impl CherryType {
    /// Zero-based position of this variant, in declaration order.
    pub open spec fn spec_index(self) -> int {
        match self {
            CherryType::Bing => 0,
            CherryType::Black => 1,
            CherryType::Cornelian => 2,
            CherryType::Maraschino => 3,
            CherryType::QueenAnne => 4,
            CherryType::Ranier => 5,
            CherryType::Sour => 6,
            CherryType::Sweet => 7,
            CherryType::Van => 8,
            CherryType::Yellow => 9,
        }
    }

    /// The variant at a given position, the last variant standing in for
    /// any out-of-range position.
    pub open spec fn spec_from_index(i: int) -> CherryType
        recommends
            0 <= i < CHERRY_TYPE_COUNT,
    {
        if i == 0 {
            CherryType::Bing
        } else if i == 1 {
            CherryType::Black
        } else if i == 2 {
            CherryType::Cornelian
        } else if i == 3 {
            CherryType::Maraschino
        } else if i == 4 {
            CherryType::QueenAnne
        } else if i == 5 {
            CherryType::Ranier
        } else if i == 6 {
            CherryType::Sour
        } else if i == 7 {
            CherryType::Sweet
        } else if i == 8 {
            CherryType::Van
        } else {
            CherryType::Yellow
        }
    }

    /// Position of this variant among the ten.
    pub fn as_index(&self) -> (i: usize)
        ensures
            i == self.spec_index(),
            i < CHERRY_TYPE_COUNT,
    {
        match self {
            CherryType::Bing => 0,
            CherryType::Black => 1,
            CherryType::Cornelian => 2,
            CherryType::Maraschino => 3,
            CherryType::QueenAnne => 4,
            CherryType::Ranier => 5,
            CherryType::Sour => 6,
            CherryType::Sweet => 7,
            CherryType::Van => 8,
            CherryType::Yellow => 9,
        }
    }

    /// The variant at position `i`.
    pub fn from_index(i: usize) -> (r: Self)
        requires
            i < CHERRY_TYPE_COUNT,
        ensures
            r == Self::spec_from_index(i as int),
            r.spec_index() == i,
    {
        if i == 0 {
            CherryType::Bing
        } else if i == 1 {
            CherryType::Black
        } else if i == 2 {
            CherryType::Cornelian
        } else if i == 3 {
            CherryType::Maraschino
        } else if i == 4 {
            CherryType::QueenAnne
        } else if i == 5 {
            CherryType::Ranier
        } else if i == 6 {
            CherryType::Sour
        } else if i == 7 {
            CherryType::Sweet
        } else if i == 8 {
            CherryType::Van
        } else {
            CherryType::Yellow
        }
    }

    /// The next variant in declaration order, wrapping around after the
    /// last; never the variant it started from.
    pub fn next_cherry(&self) -> (r: Self)
        ensures
            r.spec_index() == (self.spec_index() + 1) % (CHERRY_TYPE_COUNT as int),
            r != *self,
    {
        let i = self.as_index();
        Self::from_index((i + 1) % CHERRY_TYPE_COUNT)
    }

    /// This variant's control value: its position over the variant count.
    pub fn to_control(&self) -> (r: ControlValue)
        ensures
            r.units == control_of_variant(self.spec_index(), CHERRY_TYPE_COUNT as int),
            r.units <= CONTROL_ONE,
    {
        ControlValue::for_variant(self.as_index(), CHERRY_TYPE_COUNT)
    }

    /// The variant a control value selects; always a valid variant, an
    /// out-of-range scalar failing closed to the first.
    pub fn from_control(c: &ControlValue) -> (r: Self)
        ensures
            r == Self::spec_from_index(
                variant_of_control(c.units as int, CHERRY_TYPE_COUNT as int),
            ),
    {
        Self::from_index(c.variant_index(CHERRY_TYPE_COUNT))
    }
}

/// The synchronized-field state of a [`Stuff`] entity.
#[derive(Clone, Copy, Debug, PartialEq, Eq, Structural)]
pub struct NanoStuff {
    pub apple_count: usize,
    pub banana_quality: ControlValue,
    pub cherry_type: CherryType,
}

/// The update message type of [`Stuff`]: one whole-state variant and one
/// variant per synchronized field.
#[derive(Clone, Copy, Debug, PartialEq, Eq, Structural)]
pub enum StuffMessage {
    Stuff(NanoStuff),
    AppleCount(usize),
    BananaQuality(ControlValue),
    CherryType(CherryType),
}

/// The field message that control address `i` resolves to, carrying the
/// control value converted by field `i`'s rule; nothing for an address past
/// the last field. The whole-state variant is never produced.
pub open spec fn stuff_message_at(i: int, c: ControlValue) -> Option<StuffMessage> {
    if i == 0 {
        Some(StuffMessage::AppleCount(count_of_control(c.units as int) as usize))
    } else if i == 1 {
        Some(
            StuffMessage::BananaQuality(
                ControlValue { units: normalized_of_control(c.units as int) as u64 },
            ),
        )
    } else if i == 2 {
        Some(
            StuffMessage::CherryType(
                CherryType::spec_from_index(
                    variant_of_control(c.units as int, CHERRY_TYPE_COUNT as int),
                ),
            ),
        )
    } else {
        None
    }
}

/// The field descriptor table of [`Stuff`]: name, kind and position of each
/// synchronized field, in declaration order.
pub fn stuff_field_descriptors() -> (r: Vec<FieldDescriptor>)
    ensures
        r@.len() == STUFF_FIELD_COUNT,
        r@[0].name@ == "apple-count"@,
        r@[0].kind == FieldKind::Count,
        r@[1].name@ == "banana-quality"@,
        r@[1].kind == FieldKind::Normalized,
        r@[2].name@ == "cherry-type"@,
        r@[2].kind == (FieldKind::Enumeration { variant_count: CHERRY_TYPE_COUNT }),
{
    let mut table: Vec<FieldDescriptor> = Vec::new();
    table.push(FieldDescriptor { name: "apple-count", kind: FieldKind::Count });
    table.push(FieldDescriptor { name: "banana-quality", kind: FieldKind::Normalized });
    table.push(
        FieldDescriptor {
            name: "cherry-type",
            kind: FieldKind::Enumeration { variant_count: CHERRY_TYPE_COUNT },
        },
    );
    table
}

/// The three field names resolve to three distinct character sequences.
proof fn stuff_names_distinct()
    ensures
        "apple-count"@ != "banana-quality"@,
        "apple-count"@ != "cherry-type"@,
        "banana-quality"@ != "cherry-type"@,
{
    reveal_strlit("apple-count");
    reveal_strlit("banana-quality");
    reveal_strlit("cherry-type");
    assert(("apple-count"@).len() == 11);
    assert(("banana-quality"@).len() == 14);
    assert(("cherry-type"@).len() == 11);
    assert(("apple-count"@)[0] == 'a');
    assert(("cherry-type"@)[0] == 'c');
}

/// Builds the field message for one control address of [`Stuff`].
fn stuff_field_message(index: usize, value: &ControlValue) -> (r: Option<StuffMessage>)
    ensures
        r == stuff_message_at(index as int, *value),
{
    if index == 0 {
        Some(StuffMessage::AppleCount(value.to_count()))
    } else if index == 1 {
        Some(StuffMessage::BananaQuality(value.to_normalized()))
    } else if index == 2 {
        Some(StuffMessage::CherryType(CherryType::from_control(value)))
    } else {
        None
    }
}

/// Looks a field up by name in the descriptor table and builds its message.
fn stuff_message_by_name(name: &str, value: &ControlValue) -> (r: Option<StuffMessage>)
    ensures
        name@ == "apple-count"@ ==> r == stuff_message_at(0, *value),
        name@ == "banana-quality"@ ==> r == stuff_message_at(1, *value),
        name@ == "cherry-type"@ ==> r == stuff_message_at(2, *value),
        name@ != "apple-count"@ && name@ != "banana-quality"@ && name@ != "cherry-type"@ ==> r
            is None,
{
    proof {
        stuff_names_distinct();
    }
    let table = stuff_field_descriptors();
    let mut i: usize = 0;
    while i < STUFF_FIELD_COUNT
        invariant
            i <= STUFF_FIELD_COUNT,
            table@.len() == STUFF_FIELD_COUNT,
            table@[0].name@ == "apple-count"@,
            table@[1].name@ == "banana-quality"@,
            table@[2].name@ == "cherry-type"@,
            forall|k: int| 0 <= k < i ==> name@ != table@[k].name@,
        decreases STUFF_FIELD_COUNT - i,
    {
        if str_eq(table[i].name, name) {
            proof {
                stuff_names_distinct();
            }
            return stuff_field_message(i, value);
        }
        i += 1;
    }
    None
}

impl NanoStuff {
    /// The state after applying one update message: a whole-state message
    /// replaces every synchronized field, a field message changes exactly
    /// its own field.
    pub open spec fn applied(self, m: StuffMessage) -> NanoStuff {
        match m {
            StuffMessage::Stuff(n) => n,
            StuffMessage::AppleCount(v) => NanoStuff { apple_count: v, ..self },
            StuffMessage::BananaQuality(v) => NanoStuff { banana_quality: v, ..self },
            StuffMessage::CherryType(v) => NanoStuff { cherry_type: v, ..self },
        }
    }

    /// The state after applying a sequence of update messages in order.
    pub open spec fn applied_all(self, ms: Seq<StuffMessage>) -> NanoStuff
        decreases ms.len(),
    {
        if ms.len() == 0 {
            self
        } else {
            self.applied(ms[0]).applied_all(ms.subrange(1, ms.len() as int))
        }
    }

    /// A state with fields drawn at random, for exercising mirrors.
    pub fn make_fake() -> (r: Self)
        ensures
            5 <= r.apple_count < 1000,
            r.banana_quality.units < CONTROL_ONE,
    {
        let apple_count = random_usize_in(5, 1000);
        let quality_units = random_usize_in(0, CONTROL_ONE as usize);
        let cherry_index = random_usize_in(0, CHERRY_TYPE_COUNT);
        NanoStuff {
            apple_count,
            banana_quality: ControlValue { units: quality_units as u64 },
            cherry_type: CherryType::from_index(cherry_index),
        }
    }

    /// A state that differs from `other` in every synchronized field.
    pub fn make_different_from(other: &Self) -> (r: Self)
        requires
            other.apple_count < usize::MAX,
            other.banana_quality.units <= CONTROL_ONE,
        ensures
            r.apple_count == other.apple_count + 1,
            r.banana_quality.units == (if other.banana_quality.units + 77_700_000 >= CONTROL_ONE {
                other.banana_quality.units + 77_700_000 - CONTROL_ONE
            } else {
                other.banana_quality.units + 77_700_000
            }),
            r.banana_quality.units < CONTROL_ONE,
            r.cherry_type.spec_index() == (other.cherry_type.spec_index() + 1) % (
            CHERRY_TYPE_COUNT as int),
            r.apple_count != other.apple_count,
            r.banana_quality != other.banana_quality,
            r.cherry_type != other.cherry_type,
    {
        let sum = other.banana_quality.units + 77_700_000;
        let quality_units = if sum >= CONTROL_ONE {
            sum - CONTROL_ONE
        } else {
            sum
        };
        NanoStuff {
            apple_count: other.apple_count + 1,
            banana_quality: ControlValue { units: quality_units },
            cherry_type: other.cherry_type.next_cherry(),
        }
    }

    pub fn apple_count(&self) -> (r: usize)
        ensures
            r == self.apple_count,
    {
        self.apple_count
    }

    pub fn banana_quality(&self) -> (r: ControlValue)
        ensures
            r == self.banana_quality,
    {
        self.banana_quality
    }

    pub fn cherry_type(&self) -> (r: CherryType)
        ensures
            r == self.cherry_type,
    {
        self.cherry_type
    }

    pub fn set_apple_count(&mut self, apple_count: usize)
        ensures
            *final(self) == (NanoStuff { apple_count, ..*old(self) }),
    {
        self.apple_count = apple_count;
    }

    pub fn set_banana_quality(&mut self, banana_quality: ControlValue)
        ensures
            *final(self) == (NanoStuff { banana_quality, ..*old(self) }),
    {
        self.banana_quality = banana_quality;
    }

    pub fn set_cherry_type(&mut self, cherry_type: CherryType)
        ensures
            *final(self) == (NanoStuff { cherry_type, ..*old(self) }),
    {
        self.cherry_type = cherry_type;
    }

    /// Applies one update message. Never emits a message in turn: this is
    /// the terminal application that breaks propagation cycles between
    /// mirrored instances.
    pub fn update(&mut self, message: StuffMessage)
        ensures
            *final(self) == old(self).applied(message),
            message matches StuffMessage::Stuff(n) ==> *final(self) == n,
    {
        match message {
            StuffMessage::Stuff(n) => {
                *self = n;
            },
            StuffMessage::AppleCount(v) => self.set_apple_count(v),
            StuffMessage::BananaQuality(v) => self.set_banana_quality(v),
            StuffMessage::CherryType(v) => self.set_cherry_type(v),
        }
    }

    /// Sets the count and reports the change: nothing when the value is
    /// already current (no mutation, no message), otherwise the field
    /// message a mirror must apply to follow.
    pub fn set_and_propagate_apple_count(&mut self, apple_count: usize) -> (r: Option<
        StuffMessage,
    >)
        ensures
            old(self).apple_count == apple_count ==> r is None && *final(self) == *old(self),
            old(self).apple_count != apple_count ==> r == Some(StuffMessage::AppleCount(apple_count))
                && *final(self) == old(self).applied(StuffMessage::AppleCount(apple_count)),
    {
        if self.apple_count == apple_count {
            None
        } else {
            self.set_apple_count(apple_count);
            Some(StuffMessage::AppleCount(apple_count))
        }
    }

    /// Sets the normalized scalar and reports the change, suppressing
    /// no-ops as [`Self::set_and_propagate_apple_count`] does.
    pub fn set_and_propagate_banana_quality(&mut self, banana_quality: ControlValue) -> (r: Option<
        StuffMessage,
    >)
        ensures
            old(self).banana_quality == banana_quality ==> r is None && *final(self) == *old(self),
            old(self).banana_quality != banana_quality ==> r == Some(
                StuffMessage::BananaQuality(banana_quality),
            ) && *final(self) == old(self).applied(StuffMessage::BananaQuality(banana_quality)),
    {
        if self.banana_quality.units() == banana_quality.units() {
            None
        } else {
            self.set_banana_quality(banana_quality);
            Some(StuffMessage::BananaQuality(banana_quality))
        }
    }

    /// Sets the enumeration and reports the change, suppressing no-ops as
    /// [`Self::set_and_propagate_apple_count`] does.
    pub fn set_and_propagate_cherry_type(&mut self, cherry_type: CherryType) -> (r: Option<
        StuffMessage,
    >)
        ensures
            old(self).cherry_type == cherry_type ==> r is None && *final(self) == *old(self),
            old(self).cherry_type != cherry_type ==> r == Some(StuffMessage::CherryType(cherry_type))
                && *final(self) == old(self).applied(StuffMessage::CherryType(cherry_type)),
    {
        if self.cherry_type.as_index() == cherry_type.as_index() {
            None
        } else {
            self.set_cherry_type(cherry_type);
            Some(StuffMessage::CherryType(cherry_type))
        }
    }

    /// The field message that control address `index` resolves to, with the
    /// control value converted by that field's rule; nothing for an address
    /// past the last field, and never a whole-state message.
    pub fn message_for_index(&self, index: usize, value: &ControlValue) -> (r: Option<
        StuffMessage,
    >)
        ensures
            r == stuff_message_at(index as int, *value),
            index >= STUFF_FIELD_COUNT ==> r is None,
            r matches Some(m) ==> !(m is Stuff),
    {
        stuff_field_message(index, value)
    }

    /// As [`Self::message_for_index`], addressing the field by name.
    pub fn message_for_name(&self, name: &str, value: &ControlValue) -> (r: Option<StuffMessage>)
        ensures
            name@ == "apple-count"@ ==> r == stuff_message_at(0, *value),
            name@ == "banana-quality"@ ==> r == stuff_message_at(1, *value),
            name@ == "cherry-type"@ ==> r == stuff_message_at(2, *value),
            name@ != "apple-count"@ && name@ != "banana-quality"@ && name@ != "cherry-type"@ ==> r
                is None,
            r matches Some(m) ==> !(m is Stuff),
    {
        proof {
            stuff_names_distinct();
        }
        stuff_message_by_name(name, value)
    }

    /// Number of addressable fields: the synchronized fields only, never
    /// the whole-state pseudo-field.
    pub fn control_index_count(&self) -> (n: usize)
        ensures
            n == STUFF_FIELD_COUNT,
    {
        stuff_field_descriptors().len()
    }

    /// The name of the field at a control address, nothing for an address
    /// at or past the field count.
    pub fn control_name_for_index(&self, index: usize) -> (r: Option<&'static str>)
        ensures
            index == 0 ==> (r matches Some(s) && s@ == "apple-count"@),
            index == 1 ==> (r matches Some(s) && s@ == "banana-quality"@),
            index == 2 ==> (r matches Some(s) && s@ == "cherry-type"@),
            index >= STUFF_FIELD_COUNT ==> r is None,
    {
        stuff_control_name(index)
    }
}

/// Shared lookup of a field name by control address.
fn stuff_control_name(index: usize) -> (r: Option<&'static str>)
    ensures
        index == 0 ==> (r matches Some(s) && s@ == "apple-count"@),
        index == 1 ==> (r matches Some(s) && s@ == "banana-quality"@),
        index == 2 ==> (r matches Some(s) && s@ == "cherry-type"@),
        index >= STUFF_FIELD_COUNT ==> r is None,
{
    let table = stuff_field_descriptors();
    if index < STUFF_FIELD_COUNT {
        Some(table[index].name)
    } else {
        None
    }
}

/// The full entity: an identity assigned at registration and immutable
/// thereafter, the synchronized fields, and a flag that tracks whether
/// derived data computed from those fields is still fresh. The
/// post-mutation hook clears the flag after every field change.
#[derive(Debug)]
pub struct Stuff {
    pub uid: usize,
    pub apple_count: usize,
    pub banana_quality: ControlValue,
    pub cherry_type: CherryType,
    pub precomputed: bool,
}

impl PartialEq for Stuff {
    /// Identity and synchronized fields decide equality; the derived-data
    /// flag is cache state, not entity state.
    fn eq(&self, other: &Self) -> (r: bool) {
        self.uid == other.uid && self.apple_count == other.apple_count && self.banana_quality
            == other.banana_quality && self.cherry_type == other.cherry_type
    }
}

impl vstd::std_specs::cmp::PartialEqSpecImpl for Stuff {
    open spec fn obeys_eq_spec() -> bool {
        true
    }

    open spec fn eq_spec(&self, other: &Self) -> bool {
        self.uid == other.uid && self.nano_view() == other.nano_view()
    }
}

impl Stuff {
    /// The synchronized-field subset of this entity's state.
    pub open spec fn nano_view(self) -> NanoStuff {
        NanoStuff {
            apple_count: self.apple_count,
            banana_quality: self.banana_quality,
            cherry_type: self.cherry_type,
        }
    }

    /// The entity after applying one update message: the identity is kept,
    /// the synchronized fields change as [`NanoStuff::applied`] says, and
    /// the post-mutation hook has marked derived data stale.
    pub open spec fn applied(self, m: StuffMessage) -> Stuff {
        Stuff {
            uid: self.uid,
            apple_count: self.nano_view().applied(m).apple_count,
            banana_quality: self.nano_view().applied(m).banana_quality,
            cherry_type: self.nano_view().applied(m).cherry_type,
            precomputed: false,
        }
    }

    /// Builds the entity from a synchronized-field state and runs the
    /// post-construction hook, leaving derived data fresh. The identity is
    /// unassigned until a registry adopts the entity.
    pub fn new(nano: NanoStuff) -> (r: Self)
        ensures
            r.uid == 0,
            r.nano_view() == nano,
            r.precomputed,
    {
        let mut r = Stuff {
            uid: 0,
            apple_count: nano.apple_count(),
            banana_quality: nano.banana_quality(),
            cherry_type: nano.cherry_type(),
            precomputed: false,
        };
        r.precompute();
        r
    }

    /// The synchronized-field subset as a value.
    pub fn nano(&self) -> (r: NanoStuff)
        ensures
            r == self.nano_view(),
    {
        NanoStuff {
            apple_count: self.apple_count,
            banana_quality: self.banana_quality,
            cherry_type: self.cherry_type,
        }
    }

    pub fn uid(&self) -> (r: usize)
        ensures
            r == self.uid,
    {
        self.uid
    }

    pub fn set_uid(&mut self, uid: usize)
        ensures
            *final(self) == (Stuff { uid, ..*old(self) }),
    {
        self.uid = uid;
    }

    /// The post-construction half of the hook: recomputes derived data, so
    /// it is fresh afterwards.
    fn precompute(&mut self)
        ensures
            *final(self) == (Stuff { precomputed: true, ..*old(self) }),
    {
        self.precomputed = true;
    }

    /// The post-mutation half of the hook: marks derived data stale. It
    /// cannot fail and runs after every field change.
    fn clear_precomputed(&mut self)
        ensures
            *final(self) == (Stuff { precomputed: false, ..*old(self) }),
    {
        self.precomputed = false;
    }

    pub fn apple_count(&self) -> (r: usize)
        ensures
            r == self.apple_count,
    {
        self.apple_count
    }

    pub fn banana_quality(&self) -> (r: ControlValue)
        ensures
            r == self.banana_quality,
    {
        self.banana_quality
    }

    pub fn cherry_type(&self) -> (r: CherryType)
        ensures
            r == self.cherry_type,
    {
        self.cherry_type
    }

    /// Sets the count and runs the post-mutation hook.
    fn set_apple_count(&mut self, apple_count: usize)
        ensures
            *final(self) == (Stuff { apple_count, precomputed: false, ..*old(self) }),
    {
        self.apple_count = apple_count;
        self.clear_precomputed();
    }

    /// Sets the normalized scalar and runs the post-mutation hook.
    fn set_banana_quality(&mut self, banana_quality: ControlValue)
        ensures
            *final(self) == (Stuff { banana_quality, precomputed: false, ..*old(self) }),
    {
        self.banana_quality = banana_quality;
        self.clear_precomputed();
    }

    /// Sets the enumeration and runs the post-mutation hook.
    fn set_cherry_type(&mut self, cherry_type: CherryType)
        ensures
            *final(self) == (Stuff { cherry_type, precomputed: false, ..*old(self) }),
    {
        self.cherry_type = cherry_type;
        self.clear_precomputed();
    }

    /// Applies one update message through the plain setters, keeping the
    /// identity. Never emits a message in turn.
    pub fn update(&mut self, message: StuffMessage)
        ensures
            *final(self) == old(self).applied(message),
            final(self).uid == old(self).uid,
            message matches StuffMessage::Stuff(n) ==> final(self).nano_view() == n,
    {
        match message {
            StuffMessage::Stuff(n) => {
                self.set_apple_count(n.apple_count());
                self.set_banana_quality(n.banana_quality());
                self.set_cherry_type(n.cherry_type());
            },
            StuffMessage::AppleCount(v) => self.set_apple_count(v),
            StuffMessage::BananaQuality(v) => self.set_banana_quality(v),
            StuffMessage::CherryType(v) => self.set_cherry_type(v),
        }
    }

    /// Sets the count and reports the change; no message, and no mutation,
    /// when the value is already current.
    pub fn set_and_propagate_apple_count(&mut self, apple_count: usize) -> (r: Option<
        StuffMessage,
    >)
        ensures
            old(self).apple_count == apple_count ==> r is None && *final(self) == *old(self),
            old(self).apple_count != apple_count ==> r == Some(StuffMessage::AppleCount(apple_count))
                && *final(self) == old(self).applied(StuffMessage::AppleCount(apple_count)),
    {
        if self.apple_count == apple_count {
            None
        } else {
            self.set_apple_count(apple_count);
            Some(StuffMessage::AppleCount(apple_count))
        }
    }

    /// Sets the normalized scalar and reports the change, suppressing
    /// no-ops.
    pub fn set_and_propagate_banana_quality(&mut self, banana_quality: ControlValue) -> (r: Option<
        StuffMessage,
    >)
        ensures
            old(self).banana_quality == banana_quality ==> r is None && *final(self) == *old(self),
            old(self).banana_quality != banana_quality ==> r == Some(
                StuffMessage::BananaQuality(banana_quality),
            ) && *final(self) == old(self).applied(StuffMessage::BananaQuality(banana_quality)),
    {
        if self.banana_quality.units() == banana_quality.units() {
            None
        } else {
            self.set_banana_quality(banana_quality);
            Some(StuffMessage::BananaQuality(banana_quality))
        }
    }

    /// Sets the enumeration and reports the change, suppressing no-ops.
    pub fn set_and_propagate_cherry_type(&mut self, cherry_type: CherryType) -> (r: Option<
        StuffMessage,
    >)
        ensures
            old(self).cherry_type == cherry_type ==> r is None && *final(self) == *old(self),
            old(self).cherry_type != cherry_type ==> r == Some(StuffMessage::CherryType(cherry_type))
                && *final(self) == old(self).applied(StuffMessage::CherryType(cherry_type)),
    {
        if self.cherry_type.as_index() == cherry_type.as_index() {
            None
        } else {
            self.set_cherry_type(cherry_type);
            Some(StuffMessage::CherryType(cherry_type))
        }
    }

    /// The field message that control address `index` resolves to; nothing
    /// past the last field, and never a whole-state message.
    pub fn message_for_index(&self, index: usize, value: &ControlValue) -> (r: Option<
        StuffMessage,
    >)
        ensures
            r == stuff_message_at(index as int, *value),
            index >= STUFF_FIELD_COUNT ==> r is None,
            r matches Some(m) ==> !(m is Stuff),
    {
        stuff_field_message(index, value)
    }

    /// As [`Self::message_for_index`], addressing the field by name.
    pub fn message_for_name(&self, name: &str, value: &ControlValue) -> (r: Option<StuffMessage>)
        ensures
            name@ == "apple-count"@ ==> r == stuff_message_at(0, *value),
            name@ == "banana-quality"@ ==> r == stuff_message_at(1, *value),
            name@ == "cherry-type"@ ==> r == stuff_message_at(2, *value),
            name@ != "apple-count"@ && name@ != "banana-quality"@ && name@ != "cherry-type"@ ==> r
                is None,
            r matches Some(m) ==> !(m is Stuff),
    {
        proof {
            stuff_names_distinct();
        }
        stuff_message_by_name(name, value)
    }

    /// Number of addressable fields, the whole-state pseudo-field excluded.
    pub fn control_index_count(&self) -> (n: usize)
        ensures
            n == STUFF_FIELD_COUNT,
    {
        stuff_field_descriptors().len()
    }

    /// The name of the field at a control address, nothing at or past the
    /// field count.
    pub fn control_name_for_index(&self, index: usize) -> (r: Option<&'static str>)
        ensures
            index == 0 ==> (r matches Some(s) && s@ == "apple-count"@),
            index == 1 ==> (r matches Some(s) && s@ == "banana-quality"@),
            index == 2 ==> (r matches Some(s) && s@ == "cherry-type"@),
            index >= STUFF_FIELD_COUNT ==> r is None,
    {
        stuff_control_name(index)
    }
}

/// Round trip of the enumeration through its control value is exact: the
/// control value of any variant selects that variant again. The fixed-point
/// denominator is a multiple of the variant count, so no band is lost to
/// flooring.
pub proof fn lemma_cherry_control_round_trip(k: CherryType)
    ensures
        CherryType::spec_from_index(
            variant_of_control(
                control_of_variant(k.spec_index(), CHERRY_TYPE_COUNT as int),
                CHERRY_TYPE_COUNT as int,
            ),
        ) == k,
{
    lemma_variant_control_round_trip(k.spec_index(), CHERRY_TYPE_COUNT as int);
}

/// Whether some message in the sequence sets the count field (a whole-state
/// message sets every field).
pub open spec fn touches_apple_count(ms: Seq<StuffMessage>) -> bool {
    exists|k: int| 0 <= k < ms.len() && (ms[k] is Stuff || ms[k] is AppleCount)
}

/// Whether some message in the sequence sets the normalized field.
pub open spec fn touches_banana_quality(ms: Seq<StuffMessage>) -> bool {
    exists|k: int| 0 <= k < ms.len() && (ms[k] is Stuff || ms[k] is BananaQuality)
}

/// Whether some message in the sequence sets the enumeration field.
pub open spec fn touches_cherry_type(ms: Seq<StuffMessage>) -> bool {
    exists|k: int| 0 <= k < ms.len() && (ms[k] is Stuff || ms[k] is CherryType)
}

/// Applying the same field or whole-state message twice leaves the state
/// exactly where applying it once does.
pub proof fn lemma_stuff_apply_idempotent(s: NanoStuff, m: StuffMessage)
    ensures
        s.applied(m).applied(m) == s.applied(m),
{
}

/// Incremental equivalence: two instances that receive the same message
/// sequence in the same order end field-equal, provided every field in
/// which they initially differ is set by some message of the sequence. A
/// mirror driven by the messages an instance emits therefore converges to
/// that instance.
pub proof fn lemma_stuff_incremental_equivalence(
    a: NanoStuff,
    b: NanoStuff,
    ms: Seq<StuffMessage>,
)
    requires
        a.apple_count != b.apple_count ==> touches_apple_count(ms),
        a.banana_quality != b.banana_quality ==> touches_banana_quality(ms),
        a.cherry_type != b.cherry_type ==> touches_cherry_type(ms),
    ensures
        a.applied_all(ms) == b.applied_all(ms),
    decreases ms.len(),
{
    if ms.len() == 0 {
        assert(a == b);
    } else {
        let m = ms[0];
        let a2 = a.applied(m);
        let b2 = b.applied(m);
        let tail = ms.subrange(1, ms.len() as int);
        if a2.apple_count != b2.apple_count {
            assert(touches_apple_count(ms));
            let k = choose|k: int|
                0 <= k < ms.len() && (ms[k] is Stuff || ms[k] is AppleCount);
            assert(k != 0);
            assert(tail[k - 1] == ms[k]);
            assert(touches_apple_count(tail));
        }
        if a2.banana_quality != b2.banana_quality {
            assert(touches_banana_quality(ms));
            let k = choose|k: int|
                0 <= k < ms.len() && (ms[k] is Stuff || ms[k] is BananaQuality);
            assert(k != 0);
            assert(tail[k - 1] == ms[k]);
            assert(touches_banana_quality(tail));
        }
        if a2.cherry_type != b2.cherry_type {
            assert(touches_cherry_type(ms));
            let k = choose|k: int|
                0 <= k < ms.len() && (ms[k] is Stuff || ms[k] is CherryType);
            assert(k != 0);
            assert(tail[k - 1] == ms[k]);
            assert(touches_cherry_type(tail));
        }
        lemma_stuff_incremental_equivalence(a2, b2, tail);
    }
}

} // verus!
