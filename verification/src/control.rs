//! The normalized scalar exchanged with automation sources, and the
//! per-field-kind conversion rules between it and a field's native value.
//!
//! Automation speaks one currency: a scalar where `1.0` is represented by
//! [`CONTROL_ONE`] fixed-point units. Each kind of synchronized field has a
//! conversion to and from that currency:
//! - a count field maps linearly, one count per whole unit;
//! - a normalized field carries the scalar itself, clamped into `[0, 1]`;
//! - a bounded enumeration maps variant `i` of `n` to `i / n`, and back by
//!   flooring, failing closed to the first variant when out of range.

use vstd::arithmetic::div_mod::*;
use vstd::prelude::*;

verus! {

/// Number of fixed-point units in one whole control unit.
pub const CONTROL_ONE: u64 = 100_000_000;

/// A control value: the scalar currency of automation, in fixed-point
/// [`CONTROL_ONE`]-ths of a unit. Values above one whole unit are
/// representable; conversions that require a normalized value clamp.
#[derive(Clone, Copy, Debug, PartialEq, Eq, Structural)]
pub struct ControlValue {
    pub units: u64,
}

/// Control units that a count field's value `v` maps to: `v` whole units,
/// saturating at the largest representable value.
pub open spec fn control_of_count(v: int) -> int {
    if v * CONTROL_ONE <= u64::MAX {
        v * CONTROL_ONE
    } else {
        u64::MAX as int
    }
}

/// Count that a control value of `u` units maps to: whole units, saturating
/// at the largest count.
pub open spec fn count_of_control(u: int) -> int {
    if u / (CONTROL_ONE as int) <= usize::MAX {
        u / (CONTROL_ONE as int)
    } else {
        usize::MAX as int
    }
}

/// Control units that a normalized field holds after clamping into `[0, 1]`.
pub open spec fn normalized_of_control(u: int) -> int {
    if u <= CONTROL_ONE {
        u
    } else {
        CONTROL_ONE as int
    }
}

/// Control units that variant `i` of an `n`-variant enumeration maps to:
/// the fixed-point form of `i / n`.
pub open spec fn control_of_variant(i: int, n: int) -> int
    recommends
        0 < n,
{
    (i * CONTROL_ONE) / n
}

/// Variant index that a control value of `u` units selects among `n`
/// variants: the floor of `u * n`, failing closed to the first variant
/// whenever that floor is out of range.
pub open spec fn variant_of_control(u: int, n: int) -> int
    recommends
        0 < n,
        0 <= u,
{
    if (u * n) / (CONTROL_ONE as int) < n {
        (u * n) / (CONTROL_ONE as int)
    } else {
        0
    }
}

impl ControlValue {
    /// A control value holding exactly `units` fixed-point units.
    pub fn from_units(units: u64) -> (r: Self)
        ensures
            r.units == units,
    {
        ControlValue { units }
    }

    /// The raw fixed-point units.
    pub fn units(&self) -> (r: u64)
        ensures
            r == self.units,
    {
        self.units
    }

    /// The control value of a count field holding `v`.
    pub fn from_count(v: usize) -> (r: Self)
        ensures
            r.units == control_of_count(v as int),
    {
        match (v as u64).checked_mul(CONTROL_ONE) {
            Some(u) => ControlValue { units: u },
            None => ControlValue { units: u64::MAX },
        }
    }

    /// The count that this control value drives a count field to.
    pub fn to_count(&self) -> (v: usize)
        ensures
            v == count_of_control(self.units as int),
    {
        let q: u64 = self.units / CONTROL_ONE;
        if q > (usize::MAX as u64) {
            usize::MAX
        } else {
            q as usize
        }
    }

    /// The value that this control value drives a normalized field to:
    /// itself, clamped into `[0, 1]`.
    pub fn to_normalized(&self) -> (r: Self)
        ensures
            r.units == normalized_of_control(self.units as int),
            r.units <= CONTROL_ONE,
    {
        if self.units > CONTROL_ONE {
            ControlValue { units: CONTROL_ONE }
        } else {
            *self
        }
    }

    /// The control value of variant `index` of an enumeration with
    /// `variant_count` variants.
    pub fn for_variant(index: usize, variant_count: usize) -> (r: Self)
        requires
            0 < variant_count,
            index < variant_count,
        ensures
            r.units == control_of_variant(index as int, variant_count as int),
            r.units <= CONTROL_ONE,
    {
        proof {
            lemma_control_of_variant_normalized(index as int, variant_count as int);
        }
        let wide: u128 = (index as u128) * (CONTROL_ONE as u128) / (variant_count as u128);
        assert(wide == control_of_variant(index as int, variant_count as int)) by {
            assert((index as u128) * (CONTROL_ONE as u128) == (index as int) * (CONTROL_ONE as int))
                by (nonlinear_arith);
        };
        ControlValue { units: wide as u64 }
    }

    /// The variant index among `variant_count` variants that this control
    /// value selects; always a valid index, out-of-range values failing
    /// closed to the first variant.
    pub fn variant_index(&self, variant_count: usize) -> (idx: usize)
        requires
            0 < variant_count,
        ensures
            idx == variant_of_control(self.units as int, variant_count as int),
            idx < variant_count,
    {
        proof {
            assert((self.units as int) * (variant_count as int) <= u128::MAX as int)
                by (nonlinear_arith)
                requires
                    self.units <= u64::MAX && variant_count <= u64::MAX,
            ;
        }
        let wide: u128 = (self.units as u128) * (variant_count as u128) / (CONTROL_ONE as u128);
        assert(wide == (self.units as int) * (variant_count as int) / (CONTROL_ONE as int)) by {
            assert((self.units as u128) * (variant_count as u128) == (self.units as int) * (
            variant_count as int)) by (nonlinear_arith);
        };
        if wide < (variant_count as u128) {
            wide as usize
        } else {
            0
        }
    }
}

/// An enumeration's control value is itself normalized: variant `i` of `n`
/// maps into `[0, 1)`.
pub proof fn lemma_control_of_variant_normalized(i: int, n: int)
    requires
        0 < n,
        0 <= i < n,
    ensures
        0 <= control_of_variant(i, n) < CONTROL_ONE,
{
    broadcast use lemma_div_pos_is_pos;

    assert(0 <= i * CONTROL_ONE) by (nonlinear_arith)
        requires
            0 <= i,
    ;
    assert(i * CONTROL_ONE <= (n - 1) * CONTROL_ONE) by (nonlinear_arith)
        requires
            i <= n - 1,
    ;
    broadcast use lemma_div_is_ordered;

    assert(((n - 1) * CONTROL_ONE) / n < CONTROL_ONE) by (nonlinear_arith)
        requires
            0 < n,
    ;
}

/// Every control value selects a valid variant index: whatever scalar an
/// automation source produces, even one past the top of the range, the
/// selected index is within the enumeration.
pub proof fn lemma_variant_of_control_in_range(u: int, n: int)
    requires
        0 < n,
        0 <= u,
    ensures
        0 <= variant_of_control(u, n) < n,
{
    broadcast use lemma_div_pos_is_pos;

    assert(0 <= u * n) by (nonlinear_arith)
        requires
            0 <= u && 0 < n,
    ;
}

/// Round trip for enumerations is exact when the fixed-point denominator is
/// a multiple of the variant count: converting variant `i` of `n` to a
/// control value and back selects `i` again.
pub proof fn lemma_variant_control_round_trip(i: int, n: int)
    requires
        0 < n,
        0 <= i < n,
        CONTROL_ONE as int % n == 0,
    ensures
        variant_of_control(control_of_variant(i, n), n) == i,
{
    let k = CONTROL_ONE as int;
    let q = k / n;
    lemma_fundamental_div_mod(k, n);
    assert(k == n * q);
    assert(i * k == n * (i * q)) by (nonlinear_arith)
        requires
            k == n * q,
    ;
    lemma_div_multiples_vanish(i * q, n);
    assert(control_of_variant(i, n) == i * q);
    assert((i * q) * n == k * i) by (nonlinear_arith)
        requires
            k == n * q,
    ;
    lemma_div_multiples_vanish(i, k);
    assert(((i * q) * n) / k == i);
}

/// Round trip for counts is exact while the count stays representable:
/// converting a count `v` to a control value and back yields `v` again.
pub proof fn lemma_count_control_round_trip(v: int)
    requires
        0 <= v <= usize::MAX,
        v * CONTROL_ONE <= u64::MAX,
    ensures
        count_of_control(control_of_count(v)) == v,
{
    let k = CONTROL_ONE as int;
    assert(v * k == k * v) by (nonlinear_arith);
    lemma_div_multiples_vanish(v, k);
}

} // verus!
