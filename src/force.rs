use vstd::prelude::*;
use crate::measure::{name_with_abbr, text_key, UnitOfMeasure, UnitSpelling};
use crate::relation::{dec, scaling, shifted_scaling, BaseRelation, Decimal};

verus! {

broadcast use vstd::string::group_string_axioms;

/// Units of force; the base unit is the newton.
#[derive(Debug, Clone, Copy, PartialEq, Eq, Structural)]
pub enum ForceUnit {
    Newtons,
    PoundsForce,
    KilogramsForce,
}

impl UnitSpelling for ForceUnit {
    open spec fn spec_abbr(self) -> Seq<char> {
        match self {
            ForceUnit::Newtons => "N"@,
            ForceUnit::PoundsForce => "lbf"@,
            ForceUnit::KilogramsForce => "kgf"@,
        }
    }

    open spec fn spec_name(self) -> Seq<char> {
        match self {
            ForceUnit::Newtons => "Newtons"@,
            ForceUnit::PoundsForce => "Pounds Force"@,
            ForceUnit::KilogramsForce => "Kilograms Force"@,
        }
    }
}

impl UnitOfMeasure for ForceUnit {
    open spec fn spec_units() -> Seq<Self> {
        seq![
            ForceUnit::Newtons,
            ForceUnit::PoundsForce,
            ForceUnit::KilogramsForce,
        ]
    }

    open spec fn spec_relation(self) -> BaseRelation {
        match self {
            ForceUnit::Newtons => scaling(dec(1, 0), dec(1, 0)),
            ForceUnit::PoundsForce => scaling(dec(444822, 5), dec(1, 0)),
            ForceUnit::KilogramsForce => scaling(dec(980665, 5), dec(1, 0)),
        }
    }

    open spec fn spec_default() -> Self {
        ForceUnit::Newtons
    }

    open spec fn spec_dimension_name() -> Seq<char> {
        "Force"@
    }

    proof fn lemma_relations() {
    }

    proof fn lemma_registry() {
        assert forall|u: Self| #[trigger] Self::spec_units().contains(u) by {
            match u {
                ForceUnit::Newtons => assert(Self::spec_units()[0] == u),
                ForceUnit::PoundsForce => assert(Self::spec_units()[1] == u),
                ForceUnit::KilogramsForce => assert(Self::spec_units()[2] == u),
            }
        }
        reveal_strlit("N");
        reveal_strlit("Newtons");
        reveal_strlit("lbf");
        reveal_strlit("Pounds Force");
        reveal_strlit("kgf");
        reveal_strlit("Kilograms Force");
        assert(text_key("N"@) == (1int, 'N', 'N'));
        assert(text_key("Newtons"@) == (7int, 'N', 's'));
        assert(text_key(name_with_abbr("Newtons"@, "N"@)) == (11int, 'N', ')'));
        assert(text_key("lbf"@) == (3int, 'l', 'f'));
        assert(text_key("Pounds Force"@) == (12int, 'P', 'e'));
        assert(text_key(name_with_abbr("Pounds Force"@, "lbf"@)) == (18int, 'P', ')'));
        assert(text_key("kgf"@) == (3int, 'k', 'f'));
        assert(text_key("Kilograms Force"@) == (15int, 'K', 'e'));
        assert(text_key(name_with_abbr("Kilograms Force"@, "kgf"@)) == (21int, 'K', ')'));
    }

    fn all_units() -> (r: Vec<Self>) {
        let r = vec![
            ForceUnit::Newtons,
            ForceUnit::PoundsForce,
            ForceUnit::KilogramsForce,
        ];
        assert(r@ =~= Self::spec_units());
        r
    }

    fn base_relation(&self) -> (r: BaseRelation) {
        match self {
            ForceUnit::Newtons => BaseRelation::scaled(Decimal::new(1, 0), Decimal::new(1, 0)),
            ForceUnit::PoundsForce => BaseRelation::scaled(
                Decimal::new(444822, 5),
                Decimal::new(1, 0),
            ),
            ForceUnit::KilogramsForce => BaseRelation::scaled(
                Decimal::new(980665, 5),
                Decimal::new(1, 0),
            ),
        }
    }

    fn default() -> (r: Self) {
        ForceUnit::Newtons
    }

    fn dimension_name() -> (r: String) {
        "Force".to_owned()
    }

    fn abbr(&self) -> (r: String) {
        let s = match self {
            ForceUnit::Newtons => "N",
            ForceUnit::PoundsForce => "lbf",
            ForceUnit::KilogramsForce => "kgf",
        };
        s.to_owned()
    }

    fn name(&self) -> (r: String) {
        let s = match self {
            ForceUnit::Newtons => "Newtons",
            ForceUnit::PoundsForce => "Pounds Force",
            ForceUnit::KilogramsForce => "Kilograms Force",
        };
        s.to_owned()
    }
}

} // verus!
