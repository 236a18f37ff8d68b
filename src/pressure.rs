use vstd::prelude::*;
use crate::measure::{name_with_abbr, text_key, UnitOfMeasure, UnitSpelling};
use crate::relation::{dec, scaling, shifted_scaling, BaseRelation, Decimal};

verus! {

broadcast use vstd::string::group_string_axioms;

/// Units of pressure; the base unit is the pascal.
#[derive(Debug, Clone, Copy, PartialEq, Eq, Structural)]
pub enum PressureUnit {
    Pascals,
    Kilopascals,
    Megapascals,
    Bars,
    PoundsPerSquareInch,
    Atmospheres,
    Torrs,
}

impl UnitSpelling for PressureUnit {
    open spec fn spec_abbr(self) -> Seq<char> {
        match self {
            PressureUnit::Pascals => "Pa"@,
            PressureUnit::Kilopascals => "kPa"@,
            PressureUnit::Megapascals => "MPa"@,
            PressureUnit::Bars => "bar"@,
            PressureUnit::PoundsPerSquareInch => "psi"@,
            PressureUnit::Atmospheres => "atm"@,
            PressureUnit::Torrs => "Torr"@,
        }
    }

    open spec fn spec_name(self) -> Seq<char> {
        match self {
            PressureUnit::Pascals => "Pascals"@,
            PressureUnit::Kilopascals => "Kilopascals"@,
            PressureUnit::Megapascals => "Megapascals"@,
            PressureUnit::Bars => "Bars"@,
            PressureUnit::PoundsPerSquareInch => "Pounds per Square Inch"@,
            PressureUnit::Atmospheres => "Atmospheres"@,
            PressureUnit::Torrs => "Torrs"@,
        }
    }
}

impl UnitOfMeasure for PressureUnit {
    open spec fn spec_units() -> Seq<Self> {
        seq![
            PressureUnit::Pascals,
            PressureUnit::Kilopascals,
            PressureUnit::Megapascals,
            PressureUnit::Bars,
            PressureUnit::PoundsPerSquareInch,
            PressureUnit::Atmospheres,
            PressureUnit::Torrs,
        ]
    }

    open spec fn spec_relation(self) -> BaseRelation {
        match self {
            PressureUnit::Pascals => scaling(dec(1, 0), dec(1, 0)),
            PressureUnit::Kilopascals => scaling(dec(1000, 0), dec(1, 0)),
            PressureUnit::Megapascals => scaling(dec(1000000, 0), dec(1, 0)),
            PressureUnit::Bars => scaling(dec(100000, 0), dec(1, 0)),
            PressureUnit::PoundsPerSquareInch => scaling(dec(689476, 2), dec(1, 0)),
            PressureUnit::Atmospheres => scaling(dec(101325, 0), dec(1, 0)),
            PressureUnit::Torrs => scaling(dec(133322, 3), dec(1, 0)),
        }
    }

    open spec fn spec_default() -> Self {
        PressureUnit::Pascals
    }

    open spec fn spec_dimension_name() -> Seq<char> {
        "Pressure"@
    }

    proof fn lemma_relations() {
    }

    proof fn lemma_registry() {
        assert forall|u: Self| #[trigger] Self::spec_units().contains(u) by {
            match u {
                PressureUnit::Pascals => assert(Self::spec_units()[0] == u),
                PressureUnit::Kilopascals => assert(Self::spec_units()[1] == u),
                PressureUnit::Megapascals => assert(Self::spec_units()[2] == u),
                PressureUnit::Bars => assert(Self::spec_units()[3] == u),
                PressureUnit::PoundsPerSquareInch => assert(Self::spec_units()[4] == u),
                PressureUnit::Atmospheres => assert(Self::spec_units()[5] == u),
                PressureUnit::Torrs => assert(Self::spec_units()[6] == u),
            }
        }
        reveal_strlit("Pa");
        reveal_strlit("Pascals");
        reveal_strlit("kPa");
        reveal_strlit("Kilopascals");
        reveal_strlit("MPa");
        reveal_strlit("Megapascals");
        reveal_strlit("bar");
        reveal_strlit("Bars");
        reveal_strlit("psi");
        reveal_strlit("Pounds per Square Inch");
        reveal_strlit("atm");
        reveal_strlit("Atmospheres");
        reveal_strlit("Torr");
        reveal_strlit("Torrs");
        assert(text_key("Pa"@) == (2int, 'P', 'a'));
        assert(text_key("Pascals"@) == (7int, 'P', 's'));
        assert(text_key(name_with_abbr("Pascals"@, "Pa"@)) == (12int, 'P', ')'));
        assert(text_key("kPa"@) == (3int, 'k', 'a'));
        assert(text_key("Kilopascals"@) == (11int, 'K', 's'));
        assert(text_key(name_with_abbr("Kilopascals"@, "kPa"@)) == (17int, 'K', ')'));
        assert(text_key("MPa"@) == (3int, 'M', 'a'));
        assert(text_key("Megapascals"@) == (11int, 'M', 's'));
        assert(text_key(name_with_abbr("Megapascals"@, "MPa"@)) == (17int, 'M', ')'));
        assert(text_key("bar"@) == (3int, 'b', 'r'));
        assert(text_key("Bars"@) == (4int, 'B', 's'));
        assert(text_key(name_with_abbr("Bars"@, "bar"@)) == (10int, 'B', ')'));
        assert(text_key("psi"@) == (3int, 'p', 'i'));
        assert(text_key("Pounds per Square Inch"@) == (22int, 'P', 'h'));
        assert(text_key(name_with_abbr("Pounds per Square Inch"@, "psi"@)) == (28int, 'P', ')'));
        assert(text_key("atm"@) == (3int, 'a', 'm'));
        assert(text_key("Atmospheres"@) == (11int, 'A', 's'));
        assert(text_key(name_with_abbr("Atmospheres"@, "atm"@)) == (17int, 'A', ')'));
        assert(text_key("Torr"@) == (4int, 'T', 'r'));
        assert(text_key("Torrs"@) == (5int, 'T', 's'));
        assert(text_key(name_with_abbr("Torrs"@, "Torr"@)) == (12int, 'T', ')'));
    }

    fn all_units() -> (r: Vec<Self>) {
        let r = vec![
            PressureUnit::Pascals,
            PressureUnit::Kilopascals,
            PressureUnit::Megapascals,
            PressureUnit::Bars,
            PressureUnit::PoundsPerSquareInch,
            PressureUnit::Atmospheres,
            PressureUnit::Torrs,
        ];
        assert(r@ =~= Self::spec_units());
        r
    }

    fn base_relation(&self) -> (r: BaseRelation) {
        match self {
            PressureUnit::Pascals => BaseRelation::scaled(Decimal::new(1, 0), Decimal::new(1, 0)),
            PressureUnit::Kilopascals => BaseRelation::scaled(
                Decimal::new(1000, 0),
                Decimal::new(1, 0),
            ),
            PressureUnit::Megapascals => BaseRelation::scaled(
                Decimal::new(1000000, 0),
                Decimal::new(1, 0),
            ),
            PressureUnit::Bars => BaseRelation::scaled(Decimal::new(100000, 0), Decimal::new(1, 0)),
            PressureUnit::PoundsPerSquareInch => BaseRelation::scaled(
                Decimal::new(689476, 2),
                Decimal::new(1, 0),
            ),
            PressureUnit::Atmospheres => BaseRelation::scaled(
                Decimal::new(101325, 0),
                Decimal::new(1, 0),
            ),
            PressureUnit::Torrs => BaseRelation::scaled(
                Decimal::new(133322, 3),
                Decimal::new(1, 0),
            ),
        }
    }

    fn default() -> (r: Self) {
        PressureUnit::Pascals
    }

    fn dimension_name() -> (r: String) {
        "Pressure".to_owned()
    }

    fn abbr(&self) -> (r: String) {
        let s = match self {
            PressureUnit::Pascals => "Pa",
            PressureUnit::Kilopascals => "kPa",
            PressureUnit::Megapascals => "MPa",
            PressureUnit::Bars => "bar",
            PressureUnit::PoundsPerSquareInch => "psi",
            PressureUnit::Atmospheres => "atm",
            PressureUnit::Torrs => "Torr",
        };
        s.to_owned()
    }

    fn name(&self) -> (r: String) {
        let s = match self {
            PressureUnit::Pascals => "Pascals",
            PressureUnit::Kilopascals => "Kilopascals",
            PressureUnit::Megapascals => "Megapascals",
            PressureUnit::Bars => "Bars",
            PressureUnit::PoundsPerSquareInch => "Pounds per Square Inch",
            PressureUnit::Atmospheres => "Atmospheres",
            PressureUnit::Torrs => "Torrs",
        };
        s.to_owned()
    }
}

} // verus!
