//! The closed world of entity types, erased behind tagged variants, with
//! the registry that owns them and routes update messages to them.
//!
//! Each entity type declares at most two capabilities: *controller* (it may
//! originate automation) and *controllable* (its fields may be automation
//! targets). The registry consults these explicit declarations — no dynamic
//! downcasting — to enumerate automation sources and targets in
//! registration order.

use crate::control::ControlValue;
use crate::misc::{misc_message_at, Misc, MiscMessage, NanoMisc, MISC_FIELD_COUNT};
use crate::stuff::{stuff_message_at, NanoStuff, Stuff, StuffMessage, STUFF_FIELD_COUNT};
use vstd::prelude::*;

verus! {

/// An addressing failure a router can meet. A missed address is a normal
/// outcome of speculative probing; a type mismatch is a wiring bug and is
/// kept distinguishable from it.
#[derive(Clone, Copy, Debug, PartialEq, Eq, Structural)]
pub enum SyncError {
    /// The identity does not name a registered entity.
    AddressingMiss,
    /// The message's concrete type is not the target entity's.
    TypeMismatch,
}

/// The capabilities an entity type declares at registration.
#[derive(Clone, Copy, Debug, PartialEq, Eq, Structural)]
pub enum Capability {
    Neither,
    ControllerOnly,
    ControllableOnly,
    Both,
}

/// A control address: one synchronized field of one registered entity,
/// independent of the field's type.
#[derive(Clone, Copy, Debug, PartialEq, Eq, Structural)]
pub struct ControlAddress {
    pub uid: usize,
    pub index: usize,
}

/// An update message for some entity of the closed world, tagged with its
/// concrete type.
#[derive(Clone, Copy, Debug, PartialEq, Eq, Structural)]
pub enum OtherEntityMessage {
    Stuff(StuffMessage),
    Misc(MiscMessage),
}

/// A synchronized-field state for some entity type of the closed world.
#[derive(Clone, Copy, Debug)]
pub enum EntityParams {
    Stuff(NanoStuff),
    Misc(NanoMisc),
}

/// An entity of the closed world, its concrete type erased behind a tag.
#[derive(Debug)]
pub enum Entity {
    Stuff(Stuff),
    Misc(Misc),
}

impl EntityParams {
    /// The capabilities of this value's entity type.
    pub open spec fn spec_capability(self) -> Capability {
        match self {
            EntityParams::Stuff(_) => Capability::Both,
            EntityParams::Misc(_) => Capability::ControllableOnly,
        }
    }

    pub open spec fn spec_is_controller(self) -> bool {
        self.spec_capability() == Capability::Both || self.spec_capability()
            == Capability::ControllerOnly
    }

    pub open spec fn spec_is_controllable(self) -> bool {
        self.spec_capability() == Capability::Both || self.spec_capability()
            == Capability::ControllableOnly
    }

    /// Number of addressable fields of this value's entity type.
    pub open spec fn spec_control_index_count(self) -> int {
        match self {
            EntityParams::Stuff(_) => STUFF_FIELD_COUNT as int,
            EntityParams::Misc(_) => MISC_FIELD_COUNT as int,
        }
    }

    /// The name of the field at a control address of this value's entity
    /// type.
    pub open spec fn spec_control_name(self, i: int) -> Seq<char> {
        match self {
            EntityParams::Stuff(_) => if i == 0 {
                "apple-count"@
            } else if i == 1 {
                "banana-quality"@
            } else {
                "cherry-type"@
            },
            EntityParams::Misc(_) => if i == 0 {
                "cat-count"@
            } else {
                "dog-count"@
            },
        }
    }

    pub fn capability(&self) -> (c: Capability)
        ensures
            c == self.spec_capability(),
    {
        match self {
            EntityParams::Stuff(_) => Capability::Both,
            EntityParams::Misc(_) => Capability::ControllableOnly,
        }
    }

    /// Whether this value's entity type may originate automation.
    pub fn is_controller(&self) -> (b: bool)
        ensures
            b == self.spec_is_controller(),
    {
        match self.capability() {
            Capability::Both | Capability::ControllerOnly => true,
            _ => false,
        }
    }

    /// Whether this value's entity type may be an automation target.
    pub fn is_controllable(&self) -> (b: bool)
        ensures
            b == self.spec_is_controllable(),
    {
        match self.capability() {
            Capability::Both | Capability::ControllableOnly => true,
            _ => false,
        }
    }

    /// Number of addressable fields, the whole-state pseudo-field excluded.
    pub fn control_index_count(&self) -> (n: usize)
        ensures
            n == self.spec_control_index_count(),
    {
        match self {
            EntityParams::Stuff(e) => e.control_index_count(),
            EntityParams::Misc(e) => e.control_index_count(),
        }
    }

    /// The name of the field at a control address, nothing at or past the
    /// field count.
    pub fn control_name_for_index(&self, index: usize) -> (r: Option<&'static str>)
        ensures
            index < self.spec_control_index_count() ==> (r matches Some(s) && s@
                == self.spec_control_name(index as int)),
            index >= self.spec_control_index_count() ==> r is None,
    {
        match self {
            EntityParams::Stuff(e) => e.control_name_for_index(index),
            EntityParams::Misc(e) => e.control_name_for_index(index),
        }
    }
}

impl Entity {
    /// This entity's identity.
    pub open spec fn spec_uid(self) -> usize {
        match self {
            Entity::Stuff(e) => e.uid,
            Entity::Misc(e) => e.uid,
        }
    }

    /// The same entity under another identity.
    pub open spec fn with_uid(self, uid: usize) -> Entity {
        match self {
            Entity::Stuff(e) => Entity::Stuff(Stuff { uid, ..e }),
            Entity::Misc(e) => Entity::Misc(Misc { uid, ..e }),
        }
    }

    /// Whether the message's concrete type is this entity's.
    pub open spec fn accepts(self, m: OtherEntityMessage) -> bool {
        match self {
            Entity::Stuff(_) => m is Stuff,
            Entity::Misc(_) => m is Misc,
        }
    }

    /// The entity after applying a message of its own type; a mismatched
    /// message changes nothing.
    pub open spec fn applied(self, m: OtherEntityMessage) -> Entity {
        match self {
            Entity::Stuff(e) => match m {
                OtherEntityMessage::Stuff(sm) => Entity::Stuff(e.applied(sm)),
                OtherEntityMessage::Misc(_) => self,
            },
            Entity::Misc(e) => match m {
                OtherEntityMessage::Misc(mm) => Entity::Misc(e.applied(mm)),
                OtherEntityMessage::Stuff(_) => self,
            },
        }
    }

    /// The capabilities of this entity's type.
    pub open spec fn spec_capability(self) -> Capability {
        match self {
            Entity::Stuff(_) => Capability::Both,
            Entity::Misc(_) => Capability::ControllableOnly,
        }
    }

    pub open spec fn spec_is_controller(self) -> bool {
        self.spec_capability() == Capability::Both || self.spec_capability()
            == Capability::ControllerOnly
    }

    pub open spec fn spec_is_controllable(self) -> bool {
        self.spec_capability() == Capability::Both || self.spec_capability()
            == Capability::ControllableOnly
    }

    /// Number of addressable fields of this entity's type.
    pub open spec fn spec_control_index_count(self) -> int {
        match self {
            Entity::Stuff(_) => STUFF_FIELD_COUNT as int,
            Entity::Misc(_) => MISC_FIELD_COUNT as int,
        }
    }

    /// The name of the field at a control address of this entity's type.
    pub open spec fn spec_control_name(self, i: int) -> Seq<char> {
        match self {
            Entity::Stuff(_) => if i == 0 {
                "apple-count"@
            } else if i == 1 {
                "banana-quality"@
            } else {
                "cherry-type"@
            },
            Entity::Misc(_) => if i == 0 {
                "cat-count"@
            } else {
                "dog-count"@
            },
        }
    }

    /// The tagged field message that control address `i` resolves to on
    /// this entity's type.
    pub open spec fn spec_message_for(self, i: int, c: ControlValue) -> Option<OtherEntityMessage> {
        match self {
            Entity::Stuff(_) => match stuff_message_at(i, c) {
                Some(m) => Some(OtherEntityMessage::Stuff(m)),
                None => None,
            },
            Entity::Misc(_) => match misc_message_at(i, c) {
                Some(m) => Some(OtherEntityMessage::Misc(m)),
                None => None,
            },
        }
    }

    pub fn uid(&self) -> (r: usize)
        ensures
            r == self.spec_uid(),
    {
        match self {
            Entity::Stuff(e) => e.uid(),
            Entity::Misc(e) => e.uid(),
        }
    }

    pub fn set_uid(&mut self, uid: usize)
        ensures
            *final(self) == old(self).with_uid(uid),
    {
        match self {
            Entity::Stuff(e) => e.set_uid(uid),
            Entity::Misc(e) => e.set_uid(uid),
        }
    }

    pub fn capability(&self) -> (c: Capability)
        ensures
            c == self.spec_capability(),
    {
        match self {
            Entity::Stuff(_) => Capability::Both,
            Entity::Misc(_) => Capability::ControllableOnly,
        }
    }

    /// Whether this entity may originate automation.
    pub fn is_controller(&self) -> (b: bool)
        ensures
            b == self.spec_is_controller(),
    {
        match self.capability() {
            Capability::Both | Capability::ControllerOnly => true,
            _ => false,
        }
    }

    /// Whether this entity's fields may be automation targets.
    pub fn is_controllable(&self) -> (b: bool)
        ensures
            b == self.spec_is_controllable(),
    {
        match self.capability() {
            Capability::Both | Capability::ControllableOnly => true,
            _ => false,
        }
    }

    /// Number of addressable fields, the whole-state pseudo-field excluded.
    pub fn control_index_count(&self) -> (n: usize)
        ensures
            n == self.spec_control_index_count(),
    {
        match self {
            Entity::Stuff(e) => e.control_index_count(),
            Entity::Misc(e) => e.control_index_count(),
        }
    }

    /// The name of the field at a control address, nothing at or past the
    /// field count.
    pub fn control_name_for_index(&self, index: usize) -> (r: Option<&'static str>)
        ensures
            index < self.spec_control_index_count() ==> (r matches Some(s) && s@
                == self.spec_control_name(index as int)),
            index >= self.spec_control_index_count() ==> r is None,
    {
        match self {
            Entity::Stuff(e) => e.control_name_for_index(index),
            Entity::Misc(e) => e.control_name_for_index(index),
        }
    }

    /// The tagged field message that a control address resolves to on this
    /// entity, with the control value converted by the addressed field's
    /// rule; nothing past the last field, and never a whole-state message.
    pub fn message_for(&self, index: usize, value: &ControlValue) -> (r: Option<
        OtherEntityMessage,
    >)
        ensures
            r == self.spec_message_for(index as int, *value),
            index >= self.spec_control_index_count() ==> r is None,
    {
        match self {
            Entity::Stuff(e) => match e.message_for_index(index, value) {
                Some(m) => Some(OtherEntityMessage::Stuff(m)),
                None => None,
            },
            Entity::Misc(e) => match e.message_for_index(index, value) {
                Some(m) => Some(OtherEntityMessage::Misc(m)),
                None => None,
            },
        }
    }

    /// As [`Self::message_for`], addressing the field by name among this
    /// entity's type's field names.
    pub fn message_for_name(&self, name: &str, value: &ControlValue) -> (r: Option<
        OtherEntityMessage,
    >)
        ensures
            self is Stuff && name@ == "apple-count"@ ==> r == self.spec_message_for(0, *value),
            self is Stuff && name@ == "banana-quality"@ ==> r == self.spec_message_for(1, *value),
            self is Stuff && name@ == "cherry-type"@ ==> r == self.spec_message_for(2, *value),
            self is Stuff && name@ != "apple-count"@ && name@ != "banana-quality"@ && name@
                != "cherry-type"@ ==> r is None,
            self is Misc && name@ == "cat-count"@ ==> r == self.spec_message_for(0, *value),
            self is Misc && name@ == "dog-count"@ ==> r == self.spec_message_for(1, *value),
            self is Misc && name@ != "cat-count"@ && name@ != "dog-count"@ ==> r is None,
    {
        match self {
            Entity::Stuff(e) => match e.message_for_name(name, value) {
                Some(m) => Some(OtherEntityMessage::Stuff(m)),
                None => None,
            },
            Entity::Misc(e) => match e.message_for_name(name, value) {
                Some(m) => Some(OtherEntityMessage::Misc(m)),
                None => None,
            },
        }
    }

    /// Applies a message of this entity's own type; reports a mismatch,
    /// changing nothing, when the tags disagree.
    pub fn update(&mut self, message: OtherEntityMessage) -> (r: Result<(), SyncError>)
        ensures
            old(self).accepts(message) ==> r == Ok::<(), SyncError>(()) && *final(self) == old(
                self,
            ).applied(message),
            !old(self).accepts(message) ==> r == Err::<(), SyncError>(SyncError::TypeMismatch)
                && *final(self) == *old(self),
    {
        match self {
            Entity::Stuff(e) => match message {
                OtherEntityMessage::Stuff(m) => {
                    e.update(m);
                    Ok(())
                },
                OtherEntityMessage::Misc(_) => Err(SyncError::TypeMismatch),
            },
            Entity::Misc(e) => match message {
                OtherEntityMessage::Misc(m) => {
                    e.update(m);
                    Ok(())
                },
                OtherEntityMessage::Stuff(_) => Err(SyncError::TypeMismatch),
            },
        }
    }
}

/// The identities, in registration order, of the controllers among a
/// sequence of entities.
pub open spec fn controller_uids_of(s: Seq<Entity>) -> Seq<usize>
    decreases s.len(),
{
    if s.len() == 0 {
        Seq::empty()
    } else {
        let prefix = controller_uids_of(s.drop_last());
        if s.last().spec_is_controller() {
            prefix.push((s.len() - 1) as usize)
        } else {
            prefix
        }
    }
}

/// The identities, in registration order, of the controllables among a
/// sequence of entities.
pub open spec fn controllable_uids_of(s: Seq<Entity>) -> Seq<usize>
    decreases s.len(),
{
    if s.len() == 0 {
        Seq::empty()
    } else {
        let prefix = controllable_uids_of(s.drop_last());
        if s.last().spec_is_controllable() {
            prefix.push((s.len() - 1) as usize)
        } else {
            prefix
        }
    }
}

/// The control addresses one entity contributes to the automation matrix:
/// one per addressable field when it is controllable, none otherwise.
pub open spec fn entity_points(e: Entity, uid: usize) -> Seq<ControlAddress> {
    if e.spec_is_controllable() {
        Seq::new(
            e.spec_control_index_count() as nat,
            |j: int| ControlAddress { uid, index: j as usize },
        )
    } else {
        Seq::empty()
    }
}

/// The automation matrix of a sequence of entities: every control address
/// of every controllable, in registration order, fields in index order.
pub open spec fn control_points_of(s: Seq<Entity>) -> Seq<ControlAddress>
    decreases s.len(),
{
    if s.len() == 0 {
        Seq::empty()
    } else {
        control_points_of(s.drop_last()) + entity_points(s.last(), (s.len() - 1) as usize)
    }
}

/// The collection that owns the entities. Each registered entity carries
/// the identity the registry assigned to it, and identities are unique:
/// entity `uid` sits at position `uid`, so lookup is constant-time.
pub struct Registry {
    entities: Vec<Entity>,
}

impl Registry {
    /// The owned entities, in registration order.
    pub closed spec fn entities_view(self) -> Seq<Entity> {
        self.entities@
    }

    /// Well-formedness: every entity's identity is its position.
    pub open spec fn wf(self) -> bool {
        forall|i: int|
            0 <= i < self.entities_view().len() ==> (#[trigger] self.entities_view()[i]).spec_uid()
                == i
    }

    /// An empty registry.
    pub fn new() -> (r: Registry)
        ensures
            r.entities_view() == Seq::<Entity>::empty(),
            r.wf(),
    {
        Registry { entities: Vec::new() }
    }

    /// Number of registered entities.
    pub fn len(&self) -> (n: usize)
        ensures
            n == self.entities_view().len(),
    {
        self.entities.len()
    }

    /// Adopts an entity, assigning it the next identity, and returns that
    /// identity.
    pub fn register(&mut self, entity: Entity) -> (uid: usize)
        requires
            old(self).wf(),
        ensures
            final(self).wf(),
            uid == old(self).entities_view().len(),
            final(self).entities_view() == old(self).entities_view().push(entity.with_uid(uid)),
    {
        let uid = self.entities.len();
        let mut adopted = entity;
        adopted.set_uid(uid);
        self.entities.push(adopted);
        proof {
            let oldv = old(self).entities_view();
            assert forall|i: int|
                0 <= i < self.entities@.len() implies (#[trigger] self.entities@[i]).spec_uid()
                == i by {
                if i < oldv.len() {
                    assert(self.entities@[i] == oldv[i]);
                } else {
                    assert(self.entities@[i] == adopted);
                }
            }
        }
        uid
    }

    /// The entity registered under an identity, nothing for an identity
    /// never assigned.
    pub fn get(&self, uid: usize) -> (r: Option<&Entity>)
        ensures
            uid < self.entities_view().len() ==> (r matches Some(e) && *e
                == self.entities_view()[uid as int]),
            uid >= self.entities_view().len() ==> r is None,
    {
        if uid < self.entities.len() {
            Some(&self.entities[uid])
        } else {
            None
        }
    }

    /// Routes one envelope: looks the target up by identity and applies the
    /// message. An unassigned identity is an addressing miss and a message
    /// of the wrong concrete type a type mismatch; neither changes any
    /// entity, and the two are reported apart.
    pub fn route(&mut self, uid: usize, message: OtherEntityMessage) -> (r: Result<(), SyncError>)
        requires
            old(self).wf(),
        ensures
            final(self).wf(),
            uid >= old(self).entities_view().len() ==> r == Err::<(), SyncError>(
                SyncError::AddressingMiss,
            ) && final(self).entities_view() == old(self).entities_view(),
            uid < old(self).entities_view().len() && old(self).entities_view()[uid as int].accepts(
                message,
            ) ==> r == Ok::<(), SyncError>(()) && final(self).entities_view() == old(
                self,
            ).entities_view().update(
                uid as int,
                old(self).entities_view()[uid as int].applied(message),
            ),
            uid < old(self).entities_view().len() && !old(self).entities_view()[uid as int].accepts(
                message,
            ) ==> r == Err::<(), SyncError>(SyncError::TypeMismatch) && final(self).entities_view()
                == old(self).entities_view(),
    {
        if uid >= self.entities.len() {
            return Err(SyncError::AddressingMiss);
        }
        let target = &mut self.entities[uid];
        let r = target.update(message);
        proof {
            if old(self).entities_view()[uid as int].accepts(message) {
                assert(final(self).entities_view() =~= old(self).entities_view().update(
                    uid as int,
                    old(self).entities_view()[uid as int].applied(message),
                ));
            } else {
                assert(final(self).entities_view() =~= old(self).entities_view());
            }
        }
        r
    }

    /// The identities of the registered controllers, in registration
    /// order, for building the source side of an automation matrix.
    pub fn controller_uids(&self) -> (r: Vec<usize>)
        ensures
            r@ == controller_uids_of(self.entities_view()),
    {
        let n = self.entities.len();
        let mut out: Vec<usize> = Vec::new();
        let mut i: usize = 0;
        while i < n
            invariant
                i <= n,
                n == self.entities_view().len(),
                out@ == controller_uids_of(self.entities_view().subrange(0, i as int)),
            decreases n - i,
        {
            if self.entities[i].is_controller() {
                out.push(i);
            }
            i += 1;
            proof {
                let s = self.entities_view();
                assert(s.subrange(0, i as int).drop_last() =~= s.subrange(0, i - 1));
                assert(s.subrange(0, i as int).last() == s[i - 1]);
            }
        }
        proof {
            assert(self.entities_view().subrange(0, n as int) =~= self.entities_view());
        }
        out
    }

    /// The identities of the registered controllables, in registration
    /// order, for building the target side of an automation matrix.
    pub fn controllable_uids(&self) -> (r: Vec<usize>)
        ensures
            r@ == controllable_uids_of(self.entities_view()),
    {
        let n = self.entities.len();
        let mut out: Vec<usize> = Vec::new();
        let mut i: usize = 0;
        while i < n
            invariant
                i <= n,
                n == self.entities_view().len(),
                out@ == controllable_uids_of(self.entities_view().subrange(0, i as int)),
            decreases n - i,
        {
            if self.entities[i].is_controllable() {
                out.push(i);
            }
            i += 1;
            proof {
                let s = self.entities_view();
                assert(s.subrange(0, i as int).drop_last() =~= s.subrange(0, i - 1));
                assert(s.subrange(0, i as int).last() == s[i - 1]);
            }
        }
        proof {
            assert(self.entities_view().subrange(0, n as int) =~= self.entities_view());
        }
        out
    }

    /// The automation matrix: every control address of every registered
    /// controllable, in registration order, fields in index order —
    /// reproducible across runs for one registration sequence.
    pub fn control_points(&self) -> (r: Vec<ControlAddress>)
        ensures
            r@ == control_points_of(self.entities_view()),
    {
        let n = self.entities.len();
        let mut out: Vec<ControlAddress> = Vec::new();
        let mut i: usize = 0;
        while i < n
            invariant
                i <= n,
                n == self.entities_view().len(),
                out@ == control_points_of(self.entities_view().subrange(0, i as int)),
            decreases n - i,
        {
            let ghost prefix = control_points_of(self.entities_view().subrange(0, i as int));
            if self.entities[i].is_controllable() {
                let count = self.entities[i].control_index_count();
                let mut j: usize = 0;
                while j < count
                    invariant
                        j <= count,
                        i < n,
                        n == self.entities_view().len(),
                        count == self.entities_view()[i as int].spec_control_index_count(),
                        self.entities_view()[i as int].spec_is_controllable(),
                        prefix == control_points_of(
                            self.entities_view().subrange(0, i as int),
                        ),
                        out@ == prefix + Seq::new(
                            j as nat,
                            |jj: int| ControlAddress { uid: i, index: jj as usize },
                        ),
                    decreases count - j,
                {
                    out.push(ControlAddress { uid: i, index: j });
                    j += 1;
                    proof {
                        assert(Seq::new(
                            j as nat,
                            |jj: int| ControlAddress { uid: i, index: jj as usize },
                        ) =~= Seq::new(
                            (j - 1) as nat,
                            |jj: int| ControlAddress { uid: i, index: jj as usize },
                        ).push(ControlAddress { uid: i, index: (j - 1) as usize }));
                    }
                }
                proof {
                    assert(out@ =~= prefix + entity_points(
                        self.entities_view()[i as int],
                        i,
                    ));
                }
            } else {
                proof {
                    assert(out@ =~= prefix + entity_points(
                        self.entities_view()[i as int],
                        i,
                    ));
                }
            }
            i += 1;
            proof {
                let s = self.entities_view();
                assert(s.subrange(0, i as int).drop_last() =~= s.subrange(0, i - 1));
                assert(s.subrange(0, i as int).last() == s[i - 1]);
            }
        }
        proof {
            assert(self.entities_view().subrange(0, n as int) =~= self.entities_view());
        }
        out
    }
}

} // verus!
