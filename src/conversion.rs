use vstd::prelude::*;
use crate::fraction::{lemma_same_as_transitive, Fraction};
use crate::measure::{name_with_abbr, parse_unit, spelled_by, UnitOfMeasure, UnitSpelling};
use crate::relation::{
    lemma_identity_relation, lemma_relation_congruent, lemma_relation_inverse,
    lemma_relation_valid,
};

verus! {

/// `v`, a magnitude in unit `from`, expressed in unit `to`: first taken to
/// the base unit by `from`'s relation, then out of it by `to`'s.
pub open spec fn convert_exact<U: UnitOfMeasure>(v: Fraction, from: U, to: U) -> Fraction {
    to.spec_relation().from_base(from.spec_relation().to_base(v))
}

/// Converting from `a` to `b` and back to `a` gives the original magnitude,
/// exactly.
pub proof fn lemma_round_trip<U: UnitOfMeasure>(v: Fraction, a: U, b: U)
    requires
        v.valid(),
    ensures
        convert_exact(convert_exact(v, a, b), b, a).same_as(v),
{
    U::lemma_relations();
    let (ra, rb) = (a.spec_relation(), b.spec_relation());
    let y = ra.to_base(v);
    lemma_relation_valid(ra, v);
    lemma_relation_inverse(rb, y);
    lemma_relation_congruent(ra, rb.to_base(rb.from_base(y)), y);
    lemma_relation_inverse(ra, v);
    lemma_relation_valid(ra, y);
    lemma_same_as_transitive(ra.from_base(rb.to_base(rb.from_base(y))), ra.from_base(y), v);
}

/// Converting a magnitude to the unit it is already in leaves its value
/// unchanged.
pub proof fn lemma_identity<U: UnitOfMeasure>(v: Fraction, a: U)
    requires
        v.valid(),
    ensures
        convert_exact(v, a, a).same_as(v),
{
    U::lemma_relations();
    lemma_relation_inverse(a.spec_relation(), v);
}

/// The base unit passes magnitudes through untouched: from the base unit to
/// itself the result is the very same fraction, and a conversion into or out
/// of the base unit applies only the other unit's relation.
pub proof fn lemma_base_passthrough<U: UnitOfMeasure>(v: Fraction, a: U)
    ensures
        convert_exact(v, U::spec_default(), U::spec_default()) == v,
        convert_exact(v, a, U::spec_default()) == a.spec_relation().to_base(v),
        convert_exact(v, U::spec_default(), a) == a.spec_relation().from_base(v),
{
    U::lemma_relations();
    let base = U::spec_default().spec_relation();
    lemma_identity_relation(base, v);
    lemma_identity_relation(base, a.spec_relation().to_base(v));
}

/// Each of a unit's three spellings parses back to that unit.
pub proof fn lemma_parse_own_spellings<U: UnitOfMeasure>(u: U)
    ensures
        parse_unit::<U>(u.spec_abbr()) == Some(u),
        parse_unit::<U>(u.spec_name()) == Some(u),
        parse_unit::<U>(name_with_abbr(u.spec_name(), u.spec_abbr())) == Some(u),
{
    U::lemma_registry();
    let s1 = u.spec_abbr();
    let s2 = u.spec_name();
    let s3 = name_with_abbr(u.spec_name(), u.spec_abbr());
    assert(spelled_by(u, s1));
    assert(spelled_by(u, s2));
    assert(spelled_by(u, s3));
}

} // verus!
