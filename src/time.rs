use vstd::prelude::*;
use crate::measure::{name_with_abbr, text_key, UnitOfMeasure, UnitSpelling};
use crate::relation::{dec, scaling, shifted_scaling, BaseRelation, Decimal};

verus! {

broadcast use vstd::string::group_string_axioms;

/// Units of time; the base unit is the second.
#[derive(Debug, Clone, Copy, PartialEq, Eq, Structural)]
pub enum TimeUnit {
    Seconds,
    Minutes,
    Hours,
    Days,
    Weeks,
    Years,
}

impl UnitSpelling for TimeUnit {
    open spec fn spec_abbr(self) -> Seq<char> {
        match self {
            TimeUnit::Seconds => "s"@,
            TimeUnit::Minutes => "min"@,
            TimeUnit::Hours => "hr"@,
            TimeUnit::Days => "d"@,
            TimeUnit::Weeks => "wk"@,
            TimeUnit::Years => "yr"@,
        }
    }

    open spec fn spec_name(self) -> Seq<char> {
        match self {
            TimeUnit::Seconds => "Seconds"@,
            TimeUnit::Minutes => "Minutes"@,
            TimeUnit::Hours => "Hours"@,
            TimeUnit::Days => "Days"@,
            TimeUnit::Weeks => "Weeks"@,
            TimeUnit::Years => "Years"@,
        }
    }
}

impl UnitOfMeasure for TimeUnit {
    open spec fn spec_units() -> Seq<Self> {
        seq![
            TimeUnit::Seconds,
            TimeUnit::Minutes,
            TimeUnit::Hours,
            TimeUnit::Days,
            TimeUnit::Weeks,
            TimeUnit::Years,
        ]
    }

    open spec fn spec_relation(self) -> BaseRelation {
        match self {
            TimeUnit::Seconds => scaling(dec(1, 0), dec(1, 0)),
            TimeUnit::Minutes => scaling(dec(60, 0), dec(1, 0)),
            TimeUnit::Hours => scaling(dec(3600, 0), dec(1, 0)),
            TimeUnit::Days => scaling(dec(86400, 0), dec(1, 0)),
            TimeUnit::Weeks => scaling(dec(604800, 0), dec(1, 0)),
            TimeUnit::Years => scaling(dec(31536000, 0), dec(1, 0)),
        }
    }

    open spec fn spec_default() -> Self {
        TimeUnit::Seconds
    }

    open spec fn spec_dimension_name() -> Seq<char> {
        "Time"@
    }

    proof fn lemma_relations() {
    }

    proof fn lemma_registry() {
        assert forall|u: Self| #[trigger] Self::spec_units().contains(u) by {
            match u {
                TimeUnit::Seconds => assert(Self::spec_units()[0] == u),
                TimeUnit::Minutes => assert(Self::spec_units()[1] == u),
                TimeUnit::Hours => assert(Self::spec_units()[2] == u),
                TimeUnit::Days => assert(Self::spec_units()[3] == u),
                TimeUnit::Weeks => assert(Self::spec_units()[4] == u),
                TimeUnit::Years => assert(Self::spec_units()[5] == u),
            }
        }
        reveal_strlit("s");
        reveal_strlit("Seconds");
        reveal_strlit("min");
        reveal_strlit("Minutes");
        reveal_strlit("hr");
        reveal_strlit("Hours");
        reveal_strlit("d");
        reveal_strlit("Days");
        reveal_strlit("wk");
        reveal_strlit("Weeks");
        reveal_strlit("yr");
        reveal_strlit("Years");
        assert(text_key("s"@) == (1int, 's', 's'));
        assert(text_key("Seconds"@) == (7int, 'S', 's'));
        assert(text_key(name_with_abbr("Seconds"@, "s"@)) == (11int, 'S', ')'));
        assert(text_key("min"@) == (3int, 'm', 'n'));
        assert(text_key("Minutes"@) == (7int, 'M', 's'));
        assert(text_key(name_with_abbr("Minutes"@, "min"@)) == (13int, 'M', ')'));
        assert(text_key("hr"@) == (2int, 'h', 'r'));
        assert(text_key("Hours"@) == (5int, 'H', 's'));
        assert(text_key(name_with_abbr("Hours"@, "hr"@)) == (10int, 'H', ')'));
        assert(text_key("d"@) == (1int, 'd', 'd'));
        assert(text_key("Days"@) == (4int, 'D', 's'));
        assert(text_key(name_with_abbr("Days"@, "d"@)) == (8int, 'D', ')'));
        assert(text_key("wk"@) == (2int, 'w', 'k'));
        assert(text_key("Weeks"@) == (5int, 'W', 's'));
        assert(text_key(name_with_abbr("Weeks"@, "wk"@)) == (10int, 'W', ')'));
        assert(text_key("yr"@) == (2int, 'y', 'r'));
        assert(text_key("Years"@) == (5int, 'Y', 's'));
        assert(text_key(name_with_abbr("Years"@, "yr"@)) == (10int, 'Y', ')'));
    }

    fn all_units() -> (r: Vec<Self>) {
        let r = vec![
            TimeUnit::Seconds,
            TimeUnit::Minutes,
            TimeUnit::Hours,
            TimeUnit::Days,
            TimeUnit::Weeks,
            TimeUnit::Years,
        ];
        assert(r@ =~= Self::spec_units());
        r
    }

    fn base_relation(&self) -> (r: BaseRelation) {
        match self {
            TimeUnit::Seconds => BaseRelation::scaled(Decimal::new(1, 0), Decimal::new(1, 0)),
            TimeUnit::Minutes => BaseRelation::scaled(Decimal::new(60, 0), Decimal::new(1, 0)),
            TimeUnit::Hours => BaseRelation::scaled(Decimal::new(3600, 0), Decimal::new(1, 0)),
            TimeUnit::Days => BaseRelation::scaled(Decimal::new(86400, 0), Decimal::new(1, 0)),
            TimeUnit::Weeks => BaseRelation::scaled(Decimal::new(604800, 0), Decimal::new(1, 0)),
            TimeUnit::Years => BaseRelation::scaled(Decimal::new(31536000, 0), Decimal::new(1, 0)),
        }
    }

    fn default() -> (r: Self) {
        TimeUnit::Seconds
    }

    fn dimension_name() -> (r: String) {
        "Time".to_owned()
    }

    fn abbr(&self) -> (r: String) {
        let s = match self {
            TimeUnit::Seconds => "s",
            TimeUnit::Minutes => "min",
            TimeUnit::Hours => "hr",
            TimeUnit::Days => "d",
            TimeUnit::Weeks => "wk",
            TimeUnit::Years => "yr",
        };
        s.to_owned()
    }

    fn name(&self) -> (r: String) {
        let s = match self {
            TimeUnit::Seconds => "Seconds",
            TimeUnit::Minutes => "Minutes",
            TimeUnit::Hours => "Hours",
            TimeUnit::Days => "Days",
            TimeUnit::Weeks => "Weeks",
            TimeUnit::Years => "Years",
        };
        s.to_owned()
    }
}

} // verus!
