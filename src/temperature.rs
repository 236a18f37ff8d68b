use vstd::prelude::*;
use crate::measure::{name_with_abbr, text_key, UnitOfMeasure, UnitSpelling};
use crate::relation::{dec, scaling, shifted_scaling, BaseRelation, Decimal};

verus! {

broadcast use vstd::string::group_string_axioms;

/// Units of temperature; the base unit is the kelvin.
#[derive(Debug, Clone, Copy, PartialEq, Eq, Structural)]
pub enum TemperatureUnit {
    Kelvin,
    Celsius,
    Fahrenheit,
    Rankine,
}

impl UnitSpelling for TemperatureUnit {
    open spec fn spec_abbr(self) -> Seq<char> {
        match self {
            TemperatureUnit::Kelvin => "K"@,
            TemperatureUnit::Celsius => "°C"@,
            TemperatureUnit::Fahrenheit => "°F"@,
            TemperatureUnit::Rankine => "°R"@,
        }
    }

    open spec fn spec_name(self) -> Seq<char> {
        match self {
            TemperatureUnit::Kelvin => "Kelvin"@,
            TemperatureUnit::Celsius => "Celsius"@,
            TemperatureUnit::Fahrenheit => "Fahrenheit"@,
            TemperatureUnit::Rankine => "Rankine"@,
        }
    }
}

impl UnitOfMeasure for TemperatureUnit {
    open spec fn spec_units() -> Seq<Self> {
        seq![
            TemperatureUnit::Kelvin,
            TemperatureUnit::Celsius,
            TemperatureUnit::Fahrenheit,
            TemperatureUnit::Rankine,
        ]
    }

    open spec fn spec_relation(self) -> BaseRelation {
        match self {
            TemperatureUnit::Kelvin => scaling(dec(1, 0), dec(1, 0)),
            TemperatureUnit::Celsius => shifted_scaling(dec(27315, 2), dec(1, 0), dec(1, 0)),
            TemperatureUnit::Fahrenheit => shifted_scaling(dec(45967, 2), dec(5, 0), dec(9, 0)),
            TemperatureUnit::Rankine => scaling(dec(5, 0), dec(9, 0)),
        }
    }

    open spec fn spec_default() -> Self {
        TemperatureUnit::Kelvin
    }

    open spec fn spec_dimension_name() -> Seq<char> {
        "Temperature"@
    }

    proof fn lemma_relations() {
    }

    proof fn lemma_registry() {
        assert forall|u: Self| #[trigger] Self::spec_units().contains(u) by {
            match u {
                TemperatureUnit::Kelvin => assert(Self::spec_units()[0] == u),
                TemperatureUnit::Celsius => assert(Self::spec_units()[1] == u),
                TemperatureUnit::Fahrenheit => assert(Self::spec_units()[2] == u),
                TemperatureUnit::Rankine => assert(Self::spec_units()[3] == u),
            }
        }
        reveal_strlit("K");
        reveal_strlit("Kelvin");
        reveal_strlit("°C");
        reveal_strlit("Celsius");
        reveal_strlit("°F");
        reveal_strlit("Fahrenheit");
        reveal_strlit("°R");
        reveal_strlit("Rankine");
        assert(text_key("K"@) == (1int, 'K', 'K'));
        assert(text_key("Kelvin"@) == (6int, 'K', 'n'));
        assert(text_key(name_with_abbr("Kelvin"@, "K"@)) == (10int, 'K', ')'));
        assert(text_key("°C"@) == (2int, '°', 'C'));
        assert(text_key("Celsius"@) == (7int, 'C', 's'));
        assert(text_key(name_with_abbr("Celsius"@, "°C"@)) == (12int, 'C', ')'));
        assert(text_key("°F"@) == (2int, '°', 'F'));
        assert(text_key("Fahrenheit"@) == (10int, 'F', 't'));
        assert(text_key(name_with_abbr("Fahrenheit"@, "°F"@)) == (15int, 'F', ')'));
        assert(text_key("°R"@) == (2int, '°', 'R'));
        assert(text_key("Rankine"@) == (7int, 'R', 'e'));
        assert(text_key(name_with_abbr("Rankine"@, "°R"@)) == (12int, 'R', ')'));
    }

    fn all_units() -> (r: Vec<Self>) {
        let r = vec![
            TemperatureUnit::Kelvin,
            TemperatureUnit::Celsius,
            TemperatureUnit::Fahrenheit,
            TemperatureUnit::Rankine,
        ];
        assert(r@ =~= Self::spec_units());
        r
    }

    fn base_relation(&self) -> (r: BaseRelation) {
        match self {
            TemperatureUnit::Kelvin => BaseRelation::scaled(Decimal::new(1, 0), Decimal::new(1, 0)),
            TemperatureUnit::Celsius => BaseRelation::shifted(
                Decimal::new(27315, 2),
                Decimal::new(1, 0),
                Decimal::new(1, 0),
            ),
            TemperatureUnit::Fahrenheit => BaseRelation::shifted(
                Decimal::new(45967, 2),
                Decimal::new(5, 0),
                Decimal::new(9, 0),
            ),
            TemperatureUnit::Rankine => BaseRelation::scaled(
                Decimal::new(5, 0),
                Decimal::new(9, 0),
            ),
        }
    }

    fn default() -> (r: Self) {
        TemperatureUnit::Kelvin
    }

    fn dimension_name() -> (r: String) {
        "Temperature".to_owned()
    }

    fn abbr(&self) -> (r: String) {
        let s = match self {
            TemperatureUnit::Kelvin => "K",
            TemperatureUnit::Celsius => "°C",
            TemperatureUnit::Fahrenheit => "°F",
            TemperatureUnit::Rankine => "°R",
        };
        s.to_owned()
    }

    fn name(&self) -> (r: String) {
        let s = match self {
            TemperatureUnit::Kelvin => "Kelvin",
            TemperatureUnit::Celsius => "Celsius",
            TemperatureUnit::Fahrenheit => "Fahrenheit",
            TemperatureUnit::Rankine => "Rankine",
        };
        s.to_owned()
    }
}

} // verus!
