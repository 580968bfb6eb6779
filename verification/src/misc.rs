//! A second entity type, with two synchronized count fields and no derived
//! data, showing that the hook and the enumeration machinery are optional.

use crate::control::{count_of_control, ControlValue};
use crate::rng::random_usize_in;
use crate::schema::{str_eq, FieldDescriptor, FieldKind};
use vstd::prelude::*;

verus! {

/// Number of synchronized fields of [`Misc`].
pub const MISC_FIELD_COUNT: usize = 2;

/// The synchronized-field state of a [`Misc`] entity.
#[derive(Clone, Copy, Debug, PartialEq, Eq, Structural)]
pub struct NanoMisc {
    pub cat_count: usize,
    pub dog_count: usize,
}

/// The update message type of [`Misc`]: one whole-state variant and one
/// variant per synchronized field.
#[derive(Clone, Copy, Debug, PartialEq, Eq, Structural)]
pub enum MiscMessage {
    Misc(NanoMisc),
    CatCount(usize),
    DogCount(usize),
}

/// The field message that control address `i` resolves to for this type;
/// nothing for an address past the last field, and never the whole-state
/// variant.
pub open spec fn misc_message_at(i: int, c: ControlValue) -> Option<MiscMessage> {
    if i == 0 {
        Some(MiscMessage::CatCount(count_of_control(c.units as int) as usize))
    } else if i == 1 {
        Some(MiscMessage::DogCount(count_of_control(c.units as int) as usize))
    } else {
        None
    }
}

/// The field descriptor table of [`Misc`].
pub fn misc_field_descriptors() -> (r: Vec<FieldDescriptor>)
    ensures
        r@.len() == MISC_FIELD_COUNT,
        r@[0].name@ == "cat-count"@,
        r@[0].kind == FieldKind::Count,
        r@[1].name@ == "dog-count"@,
        r@[1].kind == FieldKind::Count,
{
    let mut table: Vec<FieldDescriptor> = Vec::new();
    table.push(FieldDescriptor { name: "cat-count", kind: FieldKind::Count });
    table.push(FieldDescriptor { name: "dog-count", kind: FieldKind::Count });
    table
}

/// The two field names resolve to distinct character sequences.
proof fn misc_names_distinct()
    ensures
        "cat-count"@ != "dog-count"@,
{
    reveal_strlit("cat-count");
    reveal_strlit("dog-count");
    assert(("cat-count"@)[0] == 'c');
    assert(("dog-count"@)[0] == 'd');
}

/// Builds the field message for one control address of [`Misc`].
fn misc_field_message(index: usize, value: &ControlValue) -> (r: Option<MiscMessage>)
    ensures
        r == misc_message_at(index as int, *value),
{
    if index == 0 {
        Some(MiscMessage::CatCount(value.to_count()))
    } else if index == 1 {
        Some(MiscMessage::DogCount(value.to_count()))
    } else {
        None
    }
}

/// Looks a field up by name in the descriptor table and builds its message.
fn misc_message_by_name(name: &str, value: &ControlValue) -> (r: Option<MiscMessage>)
    ensures
        name@ == "cat-count"@ ==> r == misc_message_at(0, *value),
        name@ == "dog-count"@ ==> r == misc_message_at(1, *value),
        name@ != "cat-count"@ && name@ != "dog-count"@ ==> r is None,
{
    proof {
        misc_names_distinct();
    }
    let table = misc_field_descriptors();
    let mut i: usize = 0;
    while i < MISC_FIELD_COUNT
        invariant
            i <= MISC_FIELD_COUNT,
            table@.len() == MISC_FIELD_COUNT,
            table@[0].name@ == "cat-count"@,
            table@[1].name@ == "dog-count"@,
            forall|k: int| 0 <= k < i ==> name@ != table@[k].name@,
        decreases MISC_FIELD_COUNT - i,
    {
        if str_eq(table[i].name, name) {
            proof {
                misc_names_distinct();
            }
            return misc_field_message(i, value);
        }
        i += 1;
    }
    None
}

/// Shared lookup of a field name by control address.
fn misc_control_name(index: usize) -> (r: Option<&'static str>)
    ensures
        index == 0 ==> (r matches Some(s) && s@ == "cat-count"@),
        index == 1 ==> (r matches Some(s) && s@ == "dog-count"@),
        index >= MISC_FIELD_COUNT ==> r is None,
{
    let table = misc_field_descriptors();
    if index < MISC_FIELD_COUNT {
        Some(table[index].name)
    } else {
        None
    }
}

impl NanoMisc {
    /// The state after applying one update message.
    pub open spec fn applied(self, m: MiscMessage) -> NanoMisc {
        match m {
            MiscMessage::Misc(n) => n,
            MiscMessage::CatCount(v) => NanoMisc { cat_count: v, ..self },
            MiscMessage::DogCount(v) => NanoMisc { dog_count: v, ..self },
        }
    }

    /// The state after applying a sequence of update messages in order.
    pub open spec fn applied_all(self, ms: Seq<MiscMessage>) -> NanoMisc
        decreases ms.len(),
    {
        if ms.len() == 0 {
            self
        } else {
            self.applied(ms[0]).applied_all(ms.subrange(1, ms.len() as int))
        }
    }

    /// A state with fields drawn at random, for exercising mirrors.
    pub fn make_fake() -> (r: Self)
        ensures
            5 <= r.cat_count < 1000,
            5 <= r.dog_count < 1000,
    {
        let cat_count = random_usize_in(5, 1000);
        let dog_count = random_usize_in(5, 1000);
        NanoMisc { cat_count, dog_count }
    }

    pub fn cat_count(&self) -> (r: usize)
        ensures
            r == self.cat_count,
    {
        self.cat_count
    }

    pub fn dog_count(&self) -> (r: usize)
        ensures
            r == self.dog_count,
    {
        self.dog_count
    }

    pub fn set_cat_count(&mut self, cat_count: usize)
        ensures
            *final(self) == (NanoMisc { cat_count, ..*old(self) }),
    {
        self.cat_count = cat_count;
    }

    pub fn set_dog_count(&mut self, dog_count: usize)
        ensures
            *final(self) == (NanoMisc { dog_count, ..*old(self) }),
    {
        self.dog_count = dog_count;
    }

    /// Applies one update message; never emits a message in turn.
    pub fn update(&mut self, message: MiscMessage)
        ensures
            *final(self) == old(self).applied(message),
            message matches MiscMessage::Misc(n) ==> *final(self) == n,
    {
        match message {
            MiscMessage::Misc(n) => {
                *self = n;
            },
            MiscMessage::CatCount(v) => self.set_cat_count(v),
            MiscMessage::DogCount(v) => self.set_dog_count(v),
        }
    }

    /// Sets the cat count and reports the change; no message, and no
    /// mutation, when the value is already current.
    pub fn set_and_propagate_cat_count(&mut self, cat_count: usize) -> (r: Option<MiscMessage>)
        ensures
            old(self).cat_count == cat_count ==> r is None && *final(self) == *old(self),
            old(self).cat_count != cat_count ==> r == Some(MiscMessage::CatCount(cat_count))
                && *final(self) == old(self).applied(MiscMessage::CatCount(cat_count)),
    {
        if self.cat_count == cat_count {
            None
        } else {
            self.set_cat_count(cat_count);
            Some(MiscMessage::CatCount(cat_count))
        }
    }

    /// Sets the dog count and reports the change, suppressing no-ops.
    pub fn set_and_propagate_dog_count(&mut self, dog_count: usize) -> (r: Option<MiscMessage>)
        ensures
            old(self).dog_count == dog_count ==> r is None && *final(self) == *old(self),
            old(self).dog_count != dog_count ==> r == Some(MiscMessage::DogCount(dog_count))
                && *final(self) == old(self).applied(MiscMessage::DogCount(dog_count)),
    {
        if self.dog_count == dog_count {
            None
        } else {
            self.set_dog_count(dog_count);
            Some(MiscMessage::DogCount(dog_count))
        }
    }

    /// The field message that control address `index` resolves to; nothing
    /// past the last field, and never a whole-state message.
    pub fn message_for_index(&self, index: usize, value: &ControlValue) -> (r: Option<MiscMessage>)
        ensures
            r == misc_message_at(index as int, *value),
            index >= MISC_FIELD_COUNT ==> r is None,
            r matches Some(m) ==> !(m is Misc),
    {
        misc_field_message(index, value)
    }

    /// As [`Self::message_for_index`], addressing the field by name.
    pub fn message_for_name(&self, name: &str, value: &ControlValue) -> (r: Option<MiscMessage>)
        ensures
            name@ == "cat-count"@ ==> r == misc_message_at(0, *value),
            name@ == "dog-count"@ ==> r == misc_message_at(1, *value),
            name@ != "cat-count"@ && name@ != "dog-count"@ ==> r is None,
            r matches Some(m) ==> !(m is Misc),
    {
        proof {
            misc_names_distinct();
        }
        misc_message_by_name(name, value)
    }

    /// Number of addressable fields, the whole-state pseudo-field excluded.
    pub fn control_index_count(&self) -> (n: usize)
        ensures
            n == MISC_FIELD_COUNT,
    {
        misc_field_descriptors().len()
    }

    /// The name of the field at a control address, nothing at or past the
    /// field count.
    pub fn control_name_for_index(&self, index: usize) -> (r: Option<&'static str>)
        ensures
            index == 0 ==> (r matches Some(s) && s@ == "cat-count"@),
            index == 1 ==> (r matches Some(s) && s@ == "dog-count"@),
            index >= MISC_FIELD_COUNT ==> r is None,
    {
        misc_control_name(index)
    }
}

/// The full entity: an identity and the two synchronized fields. This type
/// declares no derived data, so its setters have no hook to run.
#[derive(Debug)]
pub struct Misc {
    pub uid: usize,
    pub cat_count: usize,
    pub dog_count: usize,
}

impl Misc {
    /// The synchronized-field subset of this entity's state.
    pub open spec fn nano_view(self) -> NanoMisc {
        NanoMisc { cat_count: self.cat_count, dog_count: self.dog_count }
    }

    /// The entity after applying one update message: the identity is kept,
    /// the synchronized fields change as [`NanoMisc::applied`] says.
    pub open spec fn applied(self, m: MiscMessage) -> Misc {
        Misc {
            uid: self.uid,
            cat_count: self.nano_view().applied(m).cat_count,
            dog_count: self.nano_view().applied(m).dog_count,
        }
    }

    /// Builds the entity from a synchronized-field state. The identity is
    /// unassigned until a registry adopts the entity.
    pub fn new_with(params: NanoMisc) -> (r: Self)
        ensures
            r.uid == 0,
            r.nano_view() == params,
    {
        Misc { uid: 0, cat_count: params.cat_count(), dog_count: params.dog_count() }
    }

    /// The synchronized-field subset as a value.
    pub fn nano(&self) -> (r: NanoMisc)
        ensures
            r == self.nano_view(),
    {
        NanoMisc { cat_count: self.cat_count, dog_count: self.dog_count }
    }

    pub fn uid(&self) -> (r: usize)
        ensures
            r == self.uid,
    {
        self.uid
    }

    pub fn set_uid(&mut self, uid: usize)
        ensures
            *final(self) == (Misc { uid, ..*old(self) }),
    {
        self.uid = uid;
    }

    pub fn cat_count(&self) -> (r: usize)
        ensures
            r == self.cat_count,
    {
        self.cat_count
    }

    pub fn set_cat_count(&mut self, cat_count: usize)
        ensures
            *final(self) == (Misc { cat_count, ..*old(self) }),
    {
        self.cat_count = cat_count;
    }

    pub fn dog_count(&self) -> (r: usize)
        ensures
            r == self.dog_count,
    {
        self.dog_count
    }

    pub fn set_dog_count(&mut self, dog_count: usize)
        ensures
            *final(self) == (Misc { dog_count, ..*old(self) }),
    {
        self.dog_count = dog_count;
    }

    /// Applies one update message through the plain setters, keeping the
    /// identity. Never emits a message in turn.
    pub fn update(&mut self, message: MiscMessage)
        ensures
            *final(self) == old(self).applied(message),
            final(self).uid == old(self).uid,
            message matches MiscMessage::Misc(n) ==> final(self).nano_view() == n,
    {
        match message {
            MiscMessage::Misc(n) => {
                self.set_cat_count(n.cat_count());
                self.set_dog_count(n.dog_count());
            },
            MiscMessage::CatCount(v) => self.set_cat_count(v),
            MiscMessage::DogCount(v) => self.set_dog_count(v),
        }
    }

    /// Sets the cat count and reports the change, suppressing no-ops.
    pub fn set_and_propagate_cat_count(&mut self, cat_count: usize) -> (r: Option<MiscMessage>)
        ensures
            old(self).cat_count == cat_count ==> r is None && *final(self) == *old(self),
            old(self).cat_count != cat_count ==> r == Some(MiscMessage::CatCount(cat_count))
                && *final(self) == old(self).applied(MiscMessage::CatCount(cat_count)),
    {
        if self.cat_count == cat_count {
            None
        } else {
            self.set_cat_count(cat_count);
            Some(MiscMessage::CatCount(cat_count))
        }
    }

    /// Sets the dog count and reports the change, suppressing no-ops.
    pub fn set_and_propagate_dog_count(&mut self, dog_count: usize) -> (r: Option<MiscMessage>)
        ensures
            old(self).dog_count == dog_count ==> r is None && *final(self) == *old(self),
            old(self).dog_count != dog_count ==> r == Some(MiscMessage::DogCount(dog_count))
                && *final(self) == old(self).applied(MiscMessage::DogCount(dog_count)),
    {
        if self.dog_count == dog_count {
            None
        } else {
            self.set_dog_count(dog_count);
            Some(MiscMessage::DogCount(dog_count))
        }
    }

    /// The field message that control address `index` resolves to; nothing
    /// past the last field, and never a whole-state message.
    pub fn message_for_index(&self, index: usize, value: &ControlValue) -> (r: Option<MiscMessage>)
        ensures
            r == misc_message_at(index as int, *value),
            index >= MISC_FIELD_COUNT ==> r is None,
            r matches Some(m) ==> !(m is Misc),
    {
        misc_field_message(index, value)
    }

    /// As [`Self::message_for_index`], addressing the field by name.
    pub fn message_for_name(&self, name: &str, value: &ControlValue) -> (r: Option<MiscMessage>)
        ensures
            name@ == "cat-count"@ ==> r == misc_message_at(0, *value),
            name@ == "dog-count"@ ==> r == misc_message_at(1, *value),
            name@ != "cat-count"@ && name@ != "dog-count"@ ==> r is None,
            r matches Some(m) ==> !(m is Misc),
    {
        proof {
            misc_names_distinct();
        }
        misc_message_by_name(name, value)
    }

    /// Number of addressable fields, the whole-state pseudo-field excluded.
    pub fn control_index_count(&self) -> (n: usize)
        ensures
            n == MISC_FIELD_COUNT,
    {
        misc_field_descriptors().len()
    }

    /// The name of the field at a control address, nothing at or past the
    /// field count.
    pub fn control_name_for_index(&self, index: usize) -> (r: Option<&'static str>)
        ensures
            index == 0 ==> (r matches Some(s) && s@ == "cat-count"@),
            index == 1 ==> (r matches Some(s) && s@ == "dog-count"@),
            index >= MISC_FIELD_COUNT ==> r is None,
    {
        misc_control_name(index)
    }
}

/// Whether some message in the sequence sets the cat count.
pub open spec fn touches_cat_count(ms: Seq<MiscMessage>) -> bool {
    exists|k: int| 0 <= k < ms.len() && (ms[k] is Misc || ms[k] is CatCount)
}

/// Whether some message in the sequence sets the dog count.
pub open spec fn touches_dog_count(ms: Seq<MiscMessage>) -> bool {
    exists|k: int| 0 <= k < ms.len() && (ms[k] is Misc || ms[k] is DogCount)
}

/// Applying the same field or whole-state message twice leaves the state
/// exactly where applying it once does.
pub proof fn lemma_misc_apply_idempotent(s: NanoMisc, m: MiscMessage)
    ensures
        s.applied(m).applied(m) == s.applied(m),
{
}

/// Incremental equivalence for this type, as
/// [`crate::stuff::lemma_stuff_incremental_equivalence`] states it.
pub proof fn lemma_misc_incremental_equivalence(a: NanoMisc, b: NanoMisc, ms: Seq<MiscMessage>)
    requires
        a.cat_count != b.cat_count ==> touches_cat_count(ms),
        a.dog_count != b.dog_count ==> touches_dog_count(ms),
    ensures
        a.applied_all(ms) == b.applied_all(ms),
    decreases ms.len(),
{
    if ms.len() == 0 {
        assert(a == b);
    } else {
        let m = ms[0];
        let a2 = a.applied(m);
        let b2 = b.applied(m);
        let tail = ms.subrange(1, ms.len() as int);
        if a2.cat_count != b2.cat_count {
            assert(touches_cat_count(ms));
            let k = choose|k: int| 0 <= k < ms.len() && (ms[k] is Misc || ms[k] is CatCount);
            assert(k != 0);
            assert(tail[k - 1] == ms[k]);
            assert(touches_cat_count(tail));
        }
        if a2.dog_count != b2.dog_count {
            assert(touches_dog_count(ms));
            let k = choose|k: int| 0 <= k < ms.len() && (ms[k] is Misc || ms[k] is DogCount);
            assert(k != 0);
            assert(tail[k - 1] == ms[k]);
            assert(touches_dog_count(tail));
        }
        lemma_misc_incremental_equivalence(a2, b2, tail);
    }
}

} // verus!
