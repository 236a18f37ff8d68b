use vstd::prelude::*;
use crate::relation::BaseRelation;

verus! {

/// The text of a unit, as mathematical character sequences.
pub trait UnitSpelling: Sized {
    /// Canonical abbreviation of the unit.
    spec fn spec_abbr(self) -> Seq<char>;

    /// Canonical full name of the unit.
    spec fn spec_name(self) -> Seq<char>;
}

/// The combined text of a unit, `"{name} ({abbr})"`.
pub open spec fn name_with_abbr(name: Seq<char>, abbr: Seq<char>) -> Seq<char> {
    name + seq![' ', '('] + abbr + seq![')']
}

/// Length, first and last character of a text. For every dimension these
/// alone tell its spellings apart, which is how their distinctness is shown.
pub open spec fn text_key(s: Seq<char>) -> (int, char, char) {
    (s.len() as int, s[0], s[s.len() - 1])
}

/// `s` is one of the three accepted spellings of `u`: its abbreviation, its
/// name, or its name followed by the abbreviation in parentheses.
pub open spec fn spelled_by<U: UnitSpelling>(u: U, s: Seq<char>) -> bool {
    ||| s == u.spec_abbr()
    ||| s == u.spec_name()
    ||| s == name_with_abbr(u.spec_name(), u.spec_abbr())
}

/// The unit that `s` spells, if any.
pub open spec fn parse_unit<U: UnitSpelling>(s: Seq<char>) -> Option<U> {
    if exists|u: U| spelled_by(u, s) {
        Some(choose|u: U| spelled_by(u, s))
    } else {
        None
    }
}

/// The interface shared by the unit enumerations of every dimension. The
/// spelling of a unit sits in the supertrait [`UnitSpelling`], so that the
/// contracts here can speak of the spellings of all units of a dimension.
pub trait UnitOfMeasure: UnitSpelling + Copy {
    /// Every unit of the dimension, in declaration order.
    spec fn spec_units() -> Seq<Self>;

    /// How a magnitude in this unit relates to the base unit.
    spec fn spec_relation(self) -> BaseRelation;

    /// The base unit of the dimension.
    spec fn spec_default() -> Self;

    /// Name of the dimension, for example `"Length"`.
    spec fn spec_dimension_name() -> Seq<char>;

    /// Every relation has nonzero factors, and the base unit's relation is
    /// the identity.
    proof fn lemma_relations()
        ensures
            forall|u: Self| #[trigger] u.spec_relation().valid(),
            Self::spec_default().spec_relation().is_identity(),
    ;

    /// The registry lists every unit once, and its spellings are
    /// unambiguous: no text spells two different units.
    proof fn lemma_registry()
        ensures
            forall|u: Self| #[trigger] Self::spec_units().contains(u),
            Self::spec_units().no_duplicates(),
            forall|u: Self, v: Self, s: Seq<char>|
                #[trigger] spelled_by(u, s) && #[trigger] spelled_by(v, s) ==> u == v,
    ;

    /// The exact factors that take a magnitude in this unit to the base unit.
    fn base_relation(&self) -> (r: BaseRelation)
        ensures
            r == self.spec_relation(),
    ;

    /// The base unit of the dimension, for example meters for length.
    fn default() -> (r: Self)
        ensures
            r == Self::spec_default(),
    ;

    /// Name of the dimension, for example `"Length"`.
    fn dimension_name() -> (r: String)
        ensures
            r@ == Self::spec_dimension_name(),
    ;

    /// The abbreviation of the unit, for example `"m"`.
    fn abbr(&self) -> (r: String)
        ensures
            r@ == self.spec_abbr(),
    ;

    /// The full name of the unit, for example `"Meters"`.
    fn name(&self) -> (r: String)
        ensures
            r@ == self.spec_name(),
    ;

    /// Every unit of the dimension, in declaration order.
    fn all_units() -> (r: Vec<Self>)
        ensures
            r@ == Self::spec_units(),
    ;

    /// The name and abbreviation together, for example `"Meters (m)"`.
    fn name_and_abbr(&self) -> (r: String)
        ensures
            r@ == name_with_abbr(self.spec_name(), self.spec_abbr()),
    {
        let mut s = self.name();
        let a = self.abbr();
        s.append(" (");
        s.append(a.as_str());
        s.append(")");
        proof {
            reveal_strlit(" (");
            reveal_strlit(")");
            assert(s@ =~= name_with_abbr(self.spec_name(), self.spec_abbr()));
        }
        s
    }

    /// The names of all units, in declaration order.
    fn all_names() -> (r: Vec<String>)
        ensures
            r@.len() == Self::spec_units().len(),
            forall|i: int|
                0 <= i < r@.len() ==> #[trigger] r@[i]@ == Self::spec_units()[i].spec_name(),
    {
        let units = Self::all_units();
        let mut r: Vec<String> = Vec::new();
        let mut i: usize = 0;
        while i < units.len()
            invariant
                units@ == Self::spec_units(),
                i <= units@.len(),
                r@.len() == i,
                forall|j: int| 0 <= j < i ==> #[trigger] r@[j]@ == units@[j].spec_name(),
            decreases units.len() - i,
        {
            r.push(units[i].name());
            i += 1;
        }
        r
    }

    /// The abbreviations of all units, in declaration order.
    fn all_abbrs() -> (r: Vec<String>)
        ensures
            r@.len() == Self::spec_units().len(),
            forall|i: int|
                0 <= i < r@.len() ==> #[trigger] r@[i]@ == Self::spec_units()[i].spec_abbr(),
    {
        let units = Self::all_units();
        let mut r: Vec<String> = Vec::new();
        let mut i: usize = 0;
        while i < units.len()
            invariant
                units@ == Self::spec_units(),
                i <= units@.len(),
                r@.len() == i,
                forall|j: int| 0 <= j < i ==> #[trigger] r@[j]@ == units@[j].spec_abbr(),
            decreases units.len() - i,
        {
            r.push(units[i].abbr());
            i += 1;
        }
        r
    }

    /// The combined texts `"{name} ({abbr})"` of all units, in declaration order.
    fn all_names_and_abbrs() -> (r: Vec<String>)
        ensures
            r@.len() == Self::spec_units().len(),
            forall|i: int|
                0 <= i < r@.len() ==> #[trigger] r@[i]@ == name_with_abbr(
                    Self::spec_units()[i].spec_name(),
                    Self::spec_units()[i].spec_abbr(),
                ),
    {
        let units = Self::all_units();
        let mut r: Vec<String> = Vec::new();
        let mut i: usize = 0;
        while i < units.len()
            invariant
                units@ == Self::spec_units(),
                i <= units@.len(),
                r@.len() == i,
                forall|j: int|
                    0 <= j < i ==> #[trigger] r@[j]@ == name_with_abbr(
                        units@[j].spec_name(),
                        units@[j].spec_abbr(),
                    ),
            decreases units.len() - i,
        {
            r.push(units[i].name_and_abbr());
            i += 1;
        }
        r
    }

    /// The unit that `unit_str` spells exactly (case-sensitive, untrimmed),
    /// or `None` when it spells none.
    fn from_str(unit_str: &str) -> (r: Option<Self>)
        ensures
            r == parse_unit::<Self>(unit_str@),
    {
        let target = unit_str.to_owned();
        let units = Self::all_units();
        let mut i: usize = 0;
        while i < units.len()
            invariant
                units@ == Self::spec_units(),
                target@ == unit_str@,
                forall|j: int| 0 <= j < i ==> !spelled_by(#[trigger] units@[j], target@),
            decreases units.len() - i,
        {
            let u = units[i];
            let abbr = u.abbr();
            let name = u.name();
            let both = u.name_and_abbr();
            if abbr.eq(&target) || name.eq(&target) || both.eq(&target) {
                proof {
                    Self::lemma_registry();
                    assert(spelled_by(u, unit_str@));
                    let c = choose|c: Self| spelled_by(c, unit_str@);
                    assert(c == u);
                }
                return Some(u);
            }
            i += 1;
        }
        proof {
            Self::lemma_registry();
            assert forall|u: Self| !spelled_by(u, unit_str@) by {
                assert(Self::spec_units().contains(u));
                let k = choose|k: int| 0 <= k < units@.len() && units@[k] == u;
                assert(!spelled_by(units@[k], target@));
            }
        }
        None
    }
}

} // verus!
