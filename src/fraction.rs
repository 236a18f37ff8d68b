use vstd::prelude::*;

verus! {

/// An exact rational number `num / den`, for reasoning only. Two fractions
/// stand for the same number when they are `same_as` each other.
pub struct Fraction {
    pub num: int,
    pub den: int,
}

impl Fraction {
    /// The denominator is positive.
    pub open spec fn valid(self) -> bool {
        self.den > 0
    }

    /// Both fractions denote the same number.
    pub open spec fn same_as(self, o: Fraction) -> bool {
        self.num * o.den == o.num * self.den
    }

    /// Sum.
    pub open spec fn plus(self, o: Fraction) -> Fraction {
        Fraction { num: self.num * o.den + o.num * self.den, den: self.den * o.den }
    }

    /// Difference.
    pub open spec fn minus(self, o: Fraction) -> Fraction {
        Fraction { num: self.num * o.den - o.num * self.den, den: self.den * o.den }
    }

    /// Product.
    pub open spec fn times(self, o: Fraction) -> Fraction {
        Fraction { num: self.num * o.num, den: self.den * o.den }
    }

    /// Division by a positive fraction.
    pub open spec fn over(self, o: Fraction) -> Fraction {
        Fraction { num: self.num * o.den, den: self.den * o.num }
    }
}

/// The operations keep denominators positive.
pub proof fn lemma_valid_ops(a: Fraction, b: Fraction)
    requires
        a.valid(),
        b.valid(),
    ensures
        a.plus(b).valid(),
        a.minus(b).valid(),
        a.times(b).valid(),
        b.num > 0 ==> a.over(b).valid(),
{
    assert(a.den * b.den > 0) by (nonlinear_arith)
        requires
            a.den > 0,
            b.den > 0,
    ;
    if b.num > 0 {
        assert(a.den * b.num > 0) by (nonlinear_arith)
            requires
                a.den > 0,
                b.num > 0,
        ;
    }
}

/// Denoting the same number is transitive through a valid middle fraction.
pub proof fn lemma_same_as_transitive(a: Fraction, b: Fraction, c: Fraction)
    requires
        b.valid(),
        a.same_as(b),
        b.same_as(c),
    ensures
        a.same_as(c),
{
    assert(a.num * c.den == c.num * a.den) by (nonlinear_arith)
        requires
            b.den > 0,
            a.num * b.den == b.num * a.den,
            b.num * c.den == c.num * b.den,
    ;
}

/// Adding and then taking away the same amount gives the number back.
pub proof fn lemma_plus_minus(a: Fraction, o: Fraction)
    requires
        o.valid(),
    ensures
        a.plus(o).minus(o).same_as(a),
        a.minus(o).plus(o).same_as(a),
{
    let dd = o.den * o.den;
    assert((a.num * o.den + o.num * a.den) * o.den - o.num * (a.den * o.den) == a.num * dd)
        by (nonlinear_arith)
        requires
            dd == o.den * o.den,
    ;
    assert((a.num * o.den - o.num * a.den) * o.den + o.num * (a.den * o.den) == a.num * dd)
        by (nonlinear_arith)
        requires
            dd == o.den * o.den,
    ;
    assert(a.num * dd * a.den == a.num * (a.den * o.den * o.den)) by (nonlinear_arith)
        requires
            dd == o.den * o.den,
    ;
}

/// Multiplying and dividing by the same positive number gives the number back.
pub proof fn lemma_times_over(a: Fraction, m: Fraction)
    requires
        m.num > 0,
    ensures
        a.times(m).over(m).same_as(a),
        a.over(m).times(m).same_as(a),
{
    assert(a.num * m.num * m.den * a.den == a.num * (a.den * m.den * m.num)) by (nonlinear_arith);
    assert(a.num * m.den * m.num * a.den == a.num * (a.den * m.num * m.den)) by (nonlinear_arith);
}

proof fn lemma_mul_swap(p: int, q: int, r: int, t: int)
    ensures
        (p * q) * (r * t) == (p * r) * (q * t),
{
    assert((p * q) * (r * t) == (p * r) * (q * t)) by (nonlinear_arith);
}

proof fn lemma_mul_distributes(x: int, y: int, z: int)
    ensures
        (x + y) * z == x * z + y * z,
        (x - y) * z == x * z - y * z,
{
    assert((x + y) * z == x * z + y * z) by (nonlinear_arith);
    assert((x - y) * z == x * z - y * z) by (nonlinear_arith);
}

/// Each operation gives equal results on equal left operands.
pub proof fn lemma_ops_congruent(a: Fraction, b: Fraction, o: Fraction)
    requires
        a.same_as(b),
    ensures
        a.plus(o).same_as(b.plus(o)),
        a.minus(o).same_as(b.minus(o)),
        a.times(o).same_as(b.times(o)),
        a.over(o).same_as(b.over(o)),
{
    let dd = o.den * o.den;
    let nd = o.num * o.den;
    let dn = o.den * o.num;
    assert((a.num * b.den) * dd == (b.num * a.den) * dd);
    assert((a.num * b.den) * nd == (b.num * a.den) * nd);
    assert((a.num * b.den) * dn == (b.num * a.den) * dn);
    lemma_mul_distributes(a.num * o.den, o.num * a.den, b.den * o.den);
    lemma_mul_distributes(b.num * o.den, o.num * b.den, a.den * o.den);
    lemma_mul_swap(a.num, o.den, b.den, o.den);
    lemma_mul_swap(b.num, o.den, a.den, o.den);
    lemma_mul_swap(o.num, a.den, b.den, o.den);
    lemma_mul_swap(a.num, o.num, b.den, o.den);
    lemma_mul_swap(b.num, o.num, a.den, o.den);
    lemma_mul_swap(a.num, o.den, b.den, o.num);
    lemma_mul_swap(b.num, o.den, a.den, o.num);
}

} // verus!
