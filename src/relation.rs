use vstd::prelude::*;
use crate::fraction::{
    lemma_ops_congruent, lemma_plus_minus, lemma_same_as_transitive, lemma_times_over,
    lemma_valid_ops, Fraction,
};

verus! {

/// `10` raised to the power `n`.
pub open spec fn pow10(n: nat) -> int
    decreases n,
{
    if n == 0 {
        1
    } else {
        10 * pow10((n - 1) as nat)
    }
}

pub proof fn lemma_pow10_positive(n: nat)
    ensures
        pow10(n) > 0,
    decreases n,
{
    if n > 0 {
        lemma_pow10_positive((n - 1) as nat);
    }
}

/// A non-negative decimal number, `digits / 10^places`; `39.3701` is
/// `Decimal { digits: 393701, places: 4 }`.
#[derive(Debug, Clone, Copy, PartialEq, Eq, Structural)]
pub struct Decimal {
    pub digits: u64,
    pub places: u32,
}

impl Decimal {
    /// The number written with these digits and this many decimal places.
    pub fn new(digits: u64, places: u32) -> (r: Decimal)
        ensures
            r == (Decimal { digits, places }),
    {
        Decimal { digits, places }
    }

    /// The exact number.
    pub open spec fn value(self) -> Fraction {
        Fraction { num: self.digits as int, den: pow10(self.places as nat) }
    }
}

/// The decimal with these digits and places.
pub open spec fn dec(digits: u64, places: u32) -> Decimal {
    Decimal { digits, places }
}

/// How a magnitude in one unit becomes a magnitude in its dimension's base
/// unit, `base = (value + offset) * multiplier / divisor`, and back again,
/// `value = base * divisor / multiplier - offset`.
#[derive(Debug, Clone, Copy, PartialEq, Eq, Structural)]
pub struct BaseRelation {
    pub offset: Decimal,
    pub multiplier: Decimal,
    pub divisor: Decimal,
}

/// A relation with no offset.
pub open spec fn scaling(multiplier: Decimal, divisor: Decimal) -> BaseRelation {
    BaseRelation { offset: dec(0, 0), multiplier, divisor }
}

/// A relation with an offset applied before scaling.
pub open spec fn shifted_scaling(
    offset: Decimal,
    multiplier: Decimal,
    divisor: Decimal,
) -> BaseRelation {
    BaseRelation { offset, multiplier, divisor }
}

impl BaseRelation {
    /// The relation with no offset and the given scale factors.
    pub fn scaled(multiplier: Decimal, divisor: Decimal) -> (r: BaseRelation)
        ensures
            r == scaling(multiplier, divisor),
    {
        BaseRelation { offset: Decimal::new(0, 0), multiplier, divisor }
    }

    /// The relation with an offset added before the scale factors apply.
    pub fn shifted(offset: Decimal, multiplier: Decimal, divisor: Decimal) -> (r: BaseRelation)
        ensures
            r == shifted_scaling(offset, multiplier, divisor),
    {
        BaseRelation { offset, multiplier, divisor }
    }

    /// Neither scale factor is zero.
    pub open spec fn valid(self) -> bool {
        self.multiplier.digits > 0 && self.divisor.digits > 0
    }

    /// The relation of a base unit to itself: no offset, both factors one.
    pub open spec fn is_identity(self) -> bool {
        self == scaling(dec(1, 0), dec(1, 0))
    }

    /// `v` in this unit, expressed in the base unit.
    pub open spec fn to_base(self, v: Fraction) -> Fraction {
        v.plus(self.offset.value()).times(self.multiplier.value()).over(self.divisor.value())
    }

    /// `b` in the base unit, expressed in this unit.
    pub open spec fn from_base(self, b: Fraction) -> Fraction {
        b.times(self.divisor.value()).over(self.multiplier.value()).minus(self.offset.value())
    }
}

proof fn lemma_decimals_valid(r: BaseRelation)
    requires
        r.valid(),
    ensures
        r.offset.value().valid(),
        r.multiplier.value().valid(),
        r.divisor.value().valid(),
        r.multiplier.value().num > 0,
        r.divisor.value().num > 0,
{
    lemma_pow10_positive(r.offset.places as nat);
    lemma_pow10_positive(r.multiplier.places as nat);
    lemma_pow10_positive(r.divisor.places as nat);
}

/// Both directions keep denominators positive.
pub proof fn lemma_relation_valid(r: BaseRelation, v: Fraction)
    requires
        r.valid(),
        v.valid(),
    ensures
        r.to_base(v).valid(),
        r.from_base(v).valid(),
{
    lemma_decimals_valid(r);
    let (o, m, d) = (r.offset.value(), r.multiplier.value(), r.divisor.value());
    lemma_valid_ops(v, o);
    lemma_valid_ops(v.plus(o), m);
    lemma_valid_ops(v.plus(o).times(m), d);
    lemma_valid_ops(v, d);
    lemma_valid_ops(v.times(d), m);
    lemma_valid_ops(v.times(d).over(m), o);
}

/// Both directions map equal numbers to equal numbers.
pub proof fn lemma_relation_congruent(r: BaseRelation, v: Fraction, w: Fraction)
    requires
        v.same_as(w),
    ensures
        r.to_base(v).same_as(r.to_base(w)),
        r.from_base(v).same_as(r.from_base(w)),
{
    let (o, m, d) = (r.offset.value(), r.multiplier.value(), r.divisor.value());
    lemma_ops_congruent(v, w, o);
    lemma_ops_congruent(v.plus(o), w.plus(o), m);
    lemma_ops_congruent(v.plus(o).times(m), w.plus(o).times(m), d);
    lemma_ops_congruent(v, w, d);
    lemma_ops_congruent(v.times(d), w.times(d), m);
    lemma_ops_congruent(v.times(d).over(m), w.times(d).over(m), o);
}

/// Going to the base unit and back, or back and then to the base unit,
/// gives the same number.
pub proof fn lemma_relation_inverse(r: BaseRelation, v: Fraction)
    requires
        r.valid(),
        v.valid(),
    ensures
        r.from_base(r.to_base(v)).same_as(v),
        r.to_base(r.from_base(v)).same_as(v),
{
    lemma_decimals_valid(r);
    let (o, m, d) = (r.offset.value(), r.multiplier.value(), r.divisor.value());
    lemma_valid_ops(v, o);
    lemma_valid_ops(v.plus(o), m);
    lemma_valid_ops(v.plus(o).times(m), d);
    lemma_valid_ops(v.plus(o).times(m).over(d), d);
    lemma_valid_ops(v.plus(o).times(m).over(d).times(d), m);
    // from_base(to_base(v)) = (((v + o) * m / d) * d / m) - o
    let x = v.plus(o).times(m);
    lemma_times_over(x, d);
    lemma_ops_congruent(x.over(d).times(d), x, m);
    lemma_times_over(v.plus(o), m);
    lemma_valid_ops(x, m);
    lemma_same_as_transitive(x.over(d).times(d).over(m), x.over(m), v.plus(o));
    lemma_ops_congruent(x.over(d).times(d).over(m), v.plus(o), o);
    lemma_plus_minus(v, o);
    lemma_valid_ops(x.over(d).times(d).over(m), o);
    lemma_valid_ops(v.plus(o), o);
    lemma_same_as_transitive(x.over(d).times(d).over(m).minus(o), v.plus(o).minus(o), v);
    // to_base(from_base(v)) = (((v * d / m) - o + o) * m) / d
    let y = v.times(d).over(m);
    lemma_valid_ops(v, d);
    lemma_valid_ops(v.times(d), m);
    lemma_valid_ops(y, o);
    lemma_valid_ops(y.minus(o), o);
    lemma_valid_ops(y.minus(o).plus(o), m);
    lemma_valid_ops(y, m);
    lemma_valid_ops(y.times(m), d);
    lemma_plus_minus(y, o);
    lemma_ops_congruent(y.minus(o).plus(o), y, m);
    lemma_times_over(v.times(d), m);
    lemma_same_as_transitive(y.minus(o).plus(o).times(m), y.times(m), v.times(d));
    lemma_ops_congruent(y.minus(o).plus(o).times(m), v.times(d), d);
    lemma_times_over(v, d);
    lemma_valid_ops(v.times(d), d);
    lemma_same_as_transitive(y.minus(o).plus(o).times(m).over(d), v.times(d).over(d), v);
}

/// The identity relation changes nothing, in either direction.
pub proof fn lemma_identity_relation(r: BaseRelation, v: Fraction)
    requires
        r.is_identity(),
    ensures
        r.to_base(v) == v,
        r.from_base(v) == v,
{
    assert(pow10(0) == 1);
}

} // verus!
