//! The field descriptor table: the static mapping between a synchronized
//! field's name, its index among its entity type's synchronized fields, and
//! the kind of value it holds. The whole-entity pseudo-field has no
//! descriptor; only individual fields are addressable.

use vstd::prelude::*;

verus! {

/// The closed set of value kinds a synchronized field may have.
#[derive(Clone, Copy, Debug, PartialEq, Eq, Structural)]
pub enum FieldKind {
    /// An unsigned count with a linear control mapping.
    Count,
    /// A scalar already normalized into `[0, 1]`.
    Normalized,
    /// A bounded enumeration with the given number of variants.
    Enumeration { variant_count: usize },
}

/// One synchronized field: its stable name and the kind of value it holds.
/// Its index is its position in the entity type's descriptor table,
/// assigned in declaration order.
#[derive(Clone, Copy, Debug)]
pub struct FieldDescriptor {
    pub name: &'static str,
    pub kind: FieldKind,
}

/// Whether two strings hold the same characters.
pub fn str_eq(a: &str, b: &str) -> (r: bool)
    ensures
        r == (a@ == b@),
{
    let a_len = a.unicode_len();
    let b_len = b.unicode_len();
    if a_len != b_len {
        return false;
    }
    let mut i: usize = 0;
    while i < a_len
        invariant
            i <= a_len,
            a_len == a@.len(),
            a_len == b@.len(),
            forall|k: int| 0 <= k < i ==> a@[k] == b@[k],
        decreases a_len - i,
    {
        if a.get_char(i) != b.get_char(i) {
            return false;
        }
        i += 1;
    }
    proof {
        assert(a@ =~= b@);
    }
    true
}

} // verus!
