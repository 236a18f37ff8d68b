use vstd::prelude::*;
use crate::measure::{name_with_abbr, text_key, UnitOfMeasure, UnitSpelling};
use crate::relation::{dec, scaling, shifted_scaling, BaseRelation, Decimal};

verus! {

broadcast use vstd::string::group_string_axioms;

/// Units of speed; the base unit is the meter per second.
#[derive(Debug, Clone, Copy, PartialEq, Eq, Structural)]
pub enum VelocityUnit {
    MetersPerSecond,
    KilometersPerHour,
    FeetPerSecond,
    MilesPerHour,
    Knots,
}

impl UnitSpelling for VelocityUnit {
    open spec fn spec_abbr(self) -> Seq<char> {
        match self {
            VelocityUnit::MetersPerSecond => "m/s"@,
            VelocityUnit::KilometersPerHour => "km/h"@,
            VelocityUnit::FeetPerSecond => "ft/s"@,
            VelocityUnit::MilesPerHour => "mph"@,
            VelocityUnit::Knots => "kn"@,
        }
    }

    open spec fn spec_name(self) -> Seq<char> {
        match self {
            VelocityUnit::MetersPerSecond => "Meters per Second"@,
            VelocityUnit::KilometersPerHour => "Kilometers per Hour"@,
            VelocityUnit::FeetPerSecond => "Feet per Second"@,
            VelocityUnit::MilesPerHour => "Miles per Hour"@,
            VelocityUnit::Knots => "Knots"@,
        }
    }
}

impl UnitOfMeasure for VelocityUnit {
    open spec fn spec_units() -> Seq<Self> {
        seq![
            VelocityUnit::MetersPerSecond,
            VelocityUnit::KilometersPerHour,
            VelocityUnit::FeetPerSecond,
            VelocityUnit::MilesPerHour,
            VelocityUnit::Knots,
        ]
    }

    open spec fn spec_relation(self) -> BaseRelation {
        match self {
            VelocityUnit::MetersPerSecond => scaling(dec(1, 0), dec(1, 0)),
            VelocityUnit::KilometersPerHour => scaling(dec(1, 0), dec(36, 1)),
            VelocityUnit::FeetPerSecond => scaling(dec(1, 0), dec(328084, 5)),
            VelocityUnit::MilesPerHour => scaling(dec(1, 0), dec(223694, 5)),
            VelocityUnit::Knots => scaling(dec(1, 0), dec(194384, 5)),
        }
    }

    open spec fn spec_default() -> Self {
        VelocityUnit::MetersPerSecond
    }

    open spec fn spec_dimension_name() -> Seq<char> {
        "Speed"@
    }

    proof fn lemma_relations() {
    }

    proof fn lemma_registry() {
        assert forall|u: Self| #[trigger] Self::spec_units().contains(u) by {
            match u {
                VelocityUnit::MetersPerSecond => assert(Self::spec_units()[0] == u),
                VelocityUnit::KilometersPerHour => assert(Self::spec_units()[1] == u),
                VelocityUnit::FeetPerSecond => assert(Self::spec_units()[2] == u),
                VelocityUnit::MilesPerHour => assert(Self::spec_units()[3] == u),
                VelocityUnit::Knots => assert(Self::spec_units()[4] == u),
            }
        }
        reveal_strlit("m/s");
        reveal_strlit("Meters per Second");
        reveal_strlit("km/h");
        reveal_strlit("Kilometers per Hour");
        reveal_strlit("ft/s");
        reveal_strlit("Feet per Second");
        reveal_strlit("mph");
        reveal_strlit("Miles per Hour");
        reveal_strlit("kn");
        reveal_strlit("Knots");
        assert(text_key("m/s"@) == (3int, 'm', 's'));
        assert(text_key("Meters per Second"@) == (17int, 'M', 'd'));
        assert(text_key(name_with_abbr("Meters per Second"@, "m/s"@)) == (23int, 'M', ')'));
        assert(text_key("km/h"@) == (4int, 'k', 'h'));
        assert(text_key("Kilometers per Hour"@) == (19int, 'K', 'r'));
        assert(text_key(name_with_abbr("Kilometers per Hour"@, "km/h"@)) == (26int, 'K', ')'));
        assert(text_key("ft/s"@) == (4int, 'f', 's'));
        assert(text_key("Feet per Second"@) == (15int, 'F', 'd'));
        assert(text_key(name_with_abbr("Feet per Second"@, "ft/s"@)) == (22int, 'F', ')'));
        assert(text_key("mph"@) == (3int, 'm', 'h'));
        assert(text_key("Miles per Hour"@) == (14int, 'M', 'r'));
        assert(text_key(name_with_abbr("Miles per Hour"@, "mph"@)) == (20int, 'M', ')'));
        assert(text_key("kn"@) == (2int, 'k', 'n'));
        assert(text_key("Knots"@) == (5int, 'K', 's'));
        assert(text_key(name_with_abbr("Knots"@, "kn"@)) == (10int, 'K', ')'));
    }

    fn all_units() -> (r: Vec<Self>) {
        let r = vec![
            VelocityUnit::MetersPerSecond,
            VelocityUnit::KilometersPerHour,
            VelocityUnit::FeetPerSecond,
            VelocityUnit::MilesPerHour,
            VelocityUnit::Knots,
        ];
        assert(r@ =~= Self::spec_units());
        r
    }

    fn base_relation(&self) -> (r: BaseRelation) {
        match self {
            VelocityUnit::MetersPerSecond => BaseRelation::scaled(
                Decimal::new(1, 0),
                Decimal::new(1, 0),
            ),
            VelocityUnit::KilometersPerHour => BaseRelation::scaled(
                Decimal::new(1, 0),
                Decimal::new(36, 1),
            ),
            VelocityUnit::FeetPerSecond => BaseRelation::scaled(
                Decimal::new(1, 0),
                Decimal::new(328084, 5),
            ),
            VelocityUnit::MilesPerHour => BaseRelation::scaled(
                Decimal::new(1, 0),
                Decimal::new(223694, 5),
            ),
            VelocityUnit::Knots => BaseRelation::scaled(
                Decimal::new(1, 0),
                Decimal::new(194384, 5),
            ),
        }
    }

    fn default() -> (r: Self) {
        VelocityUnit::MetersPerSecond
    }

    fn dimension_name() -> (r: String) {
        "Speed".to_owned()
    }

    fn abbr(&self) -> (r: String) {
        let s = match self {
            VelocityUnit::MetersPerSecond => "m/s",
            VelocityUnit::KilometersPerHour => "km/h",
            VelocityUnit::FeetPerSecond => "ft/s",
            VelocityUnit::MilesPerHour => "mph",
            VelocityUnit::Knots => "kn",
        };
        s.to_owned()
    }

    fn name(&self) -> (r: String) {
        let s = match self {
            VelocityUnit::MetersPerSecond => "Meters per Second",
            VelocityUnit::KilometersPerHour => "Kilometers per Hour",
            VelocityUnit::FeetPerSecond => "Feet per Second",
            VelocityUnit::MilesPerHour => "Miles per Hour",
            VelocityUnit::Knots => "Knots",
        };
        s.to_owned()
    }
}

} // verus!
