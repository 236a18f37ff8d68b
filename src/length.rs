use vstd::prelude::*;
use crate::measure::{name_with_abbr, text_key, UnitOfMeasure, UnitSpelling};
use crate::relation::{dec, scaling, shifted_scaling, BaseRelation, Decimal};

verus! {

broadcast use vstd::string::group_string_axioms;

/// Units of length; the base unit is the meter.
#[derive(Debug, Clone, Copy, PartialEq, Eq, Structural)]
pub enum LengthUnit {
    Millimeters,
    Centimeters,
    Meters,
    Kilometers,
    Inches,
    Feet,
    Yards,
    StatuteMiles,
    NauticalMiles,
}

impl UnitSpelling for LengthUnit {
    open spec fn spec_abbr(self) -> Seq<char> {
        match self {
            LengthUnit::Millimeters => "mm"@,
            LengthUnit::Centimeters => "cm"@,
            LengthUnit::Meters => "m"@,
            LengthUnit::Kilometers => "km"@,
            LengthUnit::Inches => "in"@,
            LengthUnit::Feet => "ft"@,
            LengthUnit::Yards => "yd"@,
            LengthUnit::StatuteMiles => "mi"@,
            LengthUnit::NauticalMiles => "nmi"@,
        }
    }

    open spec fn spec_name(self) -> Seq<char> {
        match self {
            LengthUnit::Millimeters => "Millimeters"@,
            LengthUnit::Centimeters => "Centimeters"@,
            LengthUnit::Meters => "Meters"@,
            LengthUnit::Kilometers => "Kilometers"@,
            LengthUnit::Inches => "Inches"@,
            LengthUnit::Feet => "Feet"@,
            LengthUnit::Yards => "Yards"@,
            LengthUnit::StatuteMiles => "Statute Miles"@,
            LengthUnit::NauticalMiles => "Nautical Miles"@,
        }
    }
}

impl UnitOfMeasure for LengthUnit {
    open spec fn spec_units() -> Seq<Self> {
        seq![
            LengthUnit::Millimeters,
            LengthUnit::Centimeters,
            LengthUnit::Meters,
            LengthUnit::Kilometers,
            LengthUnit::Inches,
            LengthUnit::Feet,
            LengthUnit::Yards,
            LengthUnit::StatuteMiles,
            LengthUnit::NauticalMiles,
        ]
    }

    open spec fn spec_relation(self) -> BaseRelation {
        match self {
            LengthUnit::Millimeters => scaling(dec(1, 0), dec(1000, 0)),
            LengthUnit::Centimeters => scaling(dec(1, 0), dec(100, 0)),
            LengthUnit::Meters => scaling(dec(1, 0), dec(1, 0)),
            LengthUnit::Kilometers => scaling(dec(1000, 0), dec(1, 0)),
            LengthUnit::Inches => scaling(dec(1, 0), dec(393701, 4)),
            LengthUnit::Feet => scaling(dec(1, 0), dec(328084, 5)),
            LengthUnit::Yards => scaling(dec(1, 0), dec(109361, 5)),
            LengthUnit::StatuteMiles => scaling(dec(1, 0), dec(621371, 9)),
            LengthUnit::NauticalMiles => scaling(dec(1, 0), dec(539957, 9)),
        }
    }

    open spec fn spec_default() -> Self {
        LengthUnit::Meters
    }

    open spec fn spec_dimension_name() -> Seq<char> {
        "Length"@
    }

    proof fn lemma_relations() {
    }

    proof fn lemma_registry() {
        assert forall|u: Self| #[trigger] Self::spec_units().contains(u) by {
            match u {
                LengthUnit::Millimeters => assert(Self::spec_units()[0] == u),
                LengthUnit::Centimeters => assert(Self::spec_units()[1] == u),
                LengthUnit::Meters => assert(Self::spec_units()[2] == u),
                LengthUnit::Kilometers => assert(Self::spec_units()[3] == u),
                LengthUnit::Inches => assert(Self::spec_units()[4] == u),
                LengthUnit::Feet => assert(Self::spec_units()[5] == u),
                LengthUnit::Yards => assert(Self::spec_units()[6] == u),
                LengthUnit::StatuteMiles => assert(Self::spec_units()[7] == u),
                LengthUnit::NauticalMiles => assert(Self::spec_units()[8] == u),
            }
        }
        reveal_strlit("mm");
        reveal_strlit("Millimeters");
        reveal_strlit("cm");
        reveal_strlit("Centimeters");
        reveal_strlit("m");
        reveal_strlit("Meters");
        reveal_strlit("km");
        reveal_strlit("Kilometers");
        reveal_strlit("in");
        reveal_strlit("Inches");
        reveal_strlit("ft");
        reveal_strlit("Feet");
        reveal_strlit("yd");
        reveal_strlit("Yards");
        reveal_strlit("mi");
        reveal_strlit("Statute Miles");
        reveal_strlit("nmi");
        reveal_strlit("Nautical Miles");
        assert(text_key("mm"@) == (2int, 'm', 'm'));
        assert(text_key("Millimeters"@) == (11int, 'M', 's'));
        assert(text_key(name_with_abbr("Millimeters"@, "mm"@)) == (16int, 'M', ')'));
        assert(text_key("cm"@) == (2int, 'c', 'm'));
        assert(text_key("Centimeters"@) == (11int, 'C', 's'));
        assert(text_key(name_with_abbr("Centimeters"@, "cm"@)) == (16int, 'C', ')'));
        assert(text_key("m"@) == (1int, 'm', 'm'));
        assert(text_key("Meters"@) == (6int, 'M', 's'));
        assert(text_key(name_with_abbr("Meters"@, "m"@)) == (10int, 'M', ')'));
        assert(text_key("km"@) == (2int, 'k', 'm'));
        assert(text_key("Kilometers"@) == (10int, 'K', 's'));
        assert(text_key(name_with_abbr("Kilometers"@, "km"@)) == (15int, 'K', ')'));
        assert(text_key("in"@) == (2int, 'i', 'n'));
        assert(text_key("Inches"@) == (6int, 'I', 's'));
        assert(text_key(name_with_abbr("Inches"@, "in"@)) == (11int, 'I', ')'));
        assert(text_key("ft"@) == (2int, 'f', 't'));
        assert(text_key("Feet"@) == (4int, 'F', 't'));
        assert(text_key(name_with_abbr("Feet"@, "ft"@)) == (9int, 'F', ')'));
        assert(text_key("yd"@) == (2int, 'y', 'd'));
        assert(text_key("Yards"@) == (5int, 'Y', 's'));
        assert(text_key(name_with_abbr("Yards"@, "yd"@)) == (10int, 'Y', ')'));
        assert(text_key("mi"@) == (2int, 'm', 'i'));
        assert(text_key("Statute Miles"@) == (13int, 'S', 's'));
        assert(text_key(name_with_abbr("Statute Miles"@, "mi"@)) == (18int, 'S', ')'));
        assert(text_key("nmi"@) == (3int, 'n', 'i'));
        assert(text_key("Nautical Miles"@) == (14int, 'N', 's'));
        assert(text_key(name_with_abbr("Nautical Miles"@, "nmi"@)) == (20int, 'N', ')'));
    }

    fn all_units() -> (r: Vec<Self>) {
        let r = vec![
            LengthUnit::Millimeters,
            LengthUnit::Centimeters,
            LengthUnit::Meters,
            LengthUnit::Kilometers,
            LengthUnit::Inches,
            LengthUnit::Feet,
            LengthUnit::Yards,
            LengthUnit::StatuteMiles,
            LengthUnit::NauticalMiles,
        ];
        assert(r@ =~= Self::spec_units());
        r
    }

    fn base_relation(&self) -> (r: BaseRelation) {
        match self {
            LengthUnit::Millimeters => BaseRelation::scaled(
                Decimal::new(1, 0),
                Decimal::new(1000, 0),
            ),
            LengthUnit::Centimeters => BaseRelation::scaled(
                Decimal::new(1, 0),
                Decimal::new(100, 0),
            ),
            LengthUnit::Meters => BaseRelation::scaled(Decimal::new(1, 0), Decimal::new(1, 0)),
            LengthUnit::Kilometers => BaseRelation::scaled(
                Decimal::new(1000, 0),
                Decimal::new(1, 0),
            ),
            LengthUnit::Inches => BaseRelation::scaled(Decimal::new(1, 0), Decimal::new(393701, 4)),
            LengthUnit::Feet => BaseRelation::scaled(Decimal::new(1, 0), Decimal::new(328084, 5)),
            LengthUnit::Yards => BaseRelation::scaled(Decimal::new(1, 0), Decimal::new(109361, 5)),
            LengthUnit::StatuteMiles => BaseRelation::scaled(
                Decimal::new(1, 0),
                Decimal::new(621371, 9),
            ),
            LengthUnit::NauticalMiles => BaseRelation::scaled(
                Decimal::new(1, 0),
                Decimal::new(539957, 9),
            ),
        }
    }

    fn default() -> (r: Self) {
        LengthUnit::Meters
    }

    fn dimension_name() -> (r: String) {
        "Length".to_owned()
    }

    fn abbr(&self) -> (r: String) {
        let s = match self {
            LengthUnit::Millimeters => "mm",
            LengthUnit::Centimeters => "cm",
            LengthUnit::Meters => "m",
            LengthUnit::Kilometers => "km",
            LengthUnit::Inches => "in",
            LengthUnit::Feet => "ft",
            LengthUnit::Yards => "yd",
            LengthUnit::StatuteMiles => "mi",
            LengthUnit::NauticalMiles => "nmi",
        };
        s.to_owned()
    }

    fn name(&self) -> (r: String) {
        let s = match self {
            LengthUnit::Millimeters => "Millimeters",
            LengthUnit::Centimeters => "Centimeters",
            LengthUnit::Meters => "Meters",
            LengthUnit::Kilometers => "Kilometers",
            LengthUnit::Inches => "Inches",
            LengthUnit::Feet => "Feet",
            LengthUnit::Yards => "Yards",
            LengthUnit::StatuteMiles => "Statute Miles",
            LengthUnit::NauticalMiles => "Nautical Miles",
        };
        s.to_owned()
    }
}

} // verus!
