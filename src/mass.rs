use vstd::prelude::*;
use crate::measure::{name_with_abbr, text_key, UnitOfMeasure, UnitSpelling};
use crate::relation::{dec, scaling, shifted_scaling, BaseRelation, Decimal};

verus! {

broadcast use vstd::string::group_string_axioms;

/// Units of mass; the base unit is the kilogram.
#[derive(Debug, Clone, Copy, PartialEq, Eq, Structural)]
pub enum MassUnit {
    Kilograms,
    PoundsMass,
}

impl UnitSpelling for MassUnit {
    open spec fn spec_abbr(self) -> Seq<char> {
        match self {
            MassUnit::Kilograms => "kg"@,
            MassUnit::PoundsMass => "lb"@,
        }
    }

    open spec fn spec_name(self) -> Seq<char> {
        match self {
            MassUnit::Kilograms => "Kilograms"@,
            MassUnit::PoundsMass => "Pounds"@,
        }
    }
}

impl UnitOfMeasure for MassUnit {
    open spec fn spec_units() -> Seq<Self> {
        seq![
            MassUnit::Kilograms,
            MassUnit::PoundsMass,
        ]
    }

    open spec fn spec_relation(self) -> BaseRelation {
        match self {
            MassUnit::Kilograms => scaling(dec(1, 0), dec(1, 0)),
            MassUnit::PoundsMass => scaling(dec(1, 0), dec(220462, 5)),
        }
    }

    open spec fn spec_default() -> Self {
        MassUnit::Kilograms
    }

    open spec fn spec_dimension_name() -> Seq<char> {
        "Mass"@
    }

    proof fn lemma_relations() {
    }

    proof fn lemma_registry() {
        assert forall|u: Self| #[trigger] Self::spec_units().contains(u) by {
            match u {
                MassUnit::Kilograms => assert(Self::spec_units()[0] == u),
                MassUnit::PoundsMass => assert(Self::spec_units()[1] == u),
            }
        }
        reveal_strlit("kg");
        reveal_strlit("Kilograms");
        reveal_strlit("lb");
        reveal_strlit("Pounds");
        assert(text_key("kg"@) == (2int, 'k', 'g'));
        assert(text_key("Kilograms"@) == (9int, 'K', 's'));
        assert(text_key(name_with_abbr("Kilograms"@, "kg"@)) == (14int, 'K', ')'));
        assert(text_key("lb"@) == (2int, 'l', 'b'));
        assert(text_key("Pounds"@) == (6int, 'P', 's'));
        assert(text_key(name_with_abbr("Pounds"@, "lb"@)) == (11int, 'P', ')'));
    }

    fn all_units() -> (r: Vec<Self>) {
        let r = vec![
            MassUnit::Kilograms,
            MassUnit::PoundsMass,
        ];
        assert(r@ =~= Self::spec_units());
        r
    }

    fn base_relation(&self) -> (r: BaseRelation) {
        match self {
            MassUnit::Kilograms => BaseRelation::scaled(Decimal::new(1, 0), Decimal::new(1, 0)),
            MassUnit::PoundsMass => BaseRelation::scaled(
                Decimal::new(1, 0),
                Decimal::new(220462, 5),
            ),
        }
    }

    fn default() -> (r: Self) {
        MassUnit::Kilograms
    }

    fn dimension_name() -> (r: String) {
        "Mass".to_owned()
    }

    fn abbr(&self) -> (r: String) {
        let s = match self {
            MassUnit::Kilograms => "kg",
            MassUnit::PoundsMass => "lb",
        };
        s.to_owned()
    }

    fn name(&self) -> (r: String) {
        let s = match self {
            MassUnit::Kilograms => "Kilograms",
            MassUnit::PoundsMass => "Pounds",
        };
        s.to_owned()
    }
}

} // verus!
