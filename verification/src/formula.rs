//! Symbolic real-valued formulas over one free variable, the soil friction
//! angle `phi` in degrees.

use vstd::prelude::*;

verus! {

/// A real-valued formula over the friction angle `phi`.
///
/// An evaluator supplies a numeric value for [`Expr::Phi`] and interprets the
/// remaining nodes over the reals: [`Expr::Rat`]`(n, d)` denotes the rational
/// number `n / d`, the trigonometric nodes take their argument in radians,
/// [`Expr::Exp`] is the natural exponential, [`Expr::Sq`] the second power,
/// and [`Expr::IfPhiPos`]`(a, b)` denotes `a` when `phi > 0` and `b`
/// otherwise.
#[derive(Debug, PartialEq, Eq)]
pub enum Expr {
    /// The friction angle `phi`, in degrees.
    Phi,
    /// The circle constant pi.
    Pi,
    /// The rational literal `numerator / denominator`.
    Rat(i64, i64),
    /// A sum.
    Add(Box<Expr>, Box<Expr>),
    /// A difference.
    Sub(Box<Expr>, Box<Expr>),
    /// A product.
    Mul(Box<Expr>, Box<Expr>),
    /// A quotient.
    Div(Box<Expr>, Box<Expr>),
    /// The tangent of an angle in radians.
    Tan(Box<Expr>),
    /// The sine of an angle in radians.
    Sin(Box<Expr>),
    /// The cosine of an angle in radians.
    Cos(Box<Expr>),
    /// The natural exponential.
    Exp(Box<Expr>),
    /// The second power.
    Sq(Box<Expr>),
    /// The first branch where `phi > 0`, the second branch otherwise.
    IfPhiPos(Box<Expr>, Box<Expr>),
}

/// A formula is well formed when every rational literal in it has a positive
/// denominator, so that no literal denotes a division by zero.
pub open spec fn wf(e: Expr) -> bool
    decreases e,
{
    match e {
        Expr::Phi => true,
        Expr::Pi => true,
        Expr::Rat(n, d) => 0 < d,
        Expr::Add(a, b) => wf(*a) && wf(*b),
        Expr::Sub(a, b) => wf(*a) && wf(*b),
        Expr::Mul(a, b) => wf(*a) && wf(*b),
        Expr::Div(a, b) => wf(*a) && wf(*b),
        Expr::Tan(a) => wf(*a),
        Expr::Sin(a) => wf(*a),
        Expr::Cos(a) => wf(*a),
        Expr::Exp(a) => wf(*a),
        Expr::Sq(a) => wf(*a),
        Expr::IfPhiPos(a, b) => wf(*a) && wf(*b),
    }
}

impl Expr {
    /// The sum `self + o`, as a formula.
    pub open spec fn spec_plus(self, o: Expr) -> Expr {
        Expr::Add(Box::new(self), Box::new(o))
    }

    /// Builds the sum `self + o`.
    #[verifier::when_used_as_spec(spec_plus)]
    pub fn plus(self, o: Expr) -> (r: Expr)
        ensures
            r == self.spec_plus(o),
    {
        Expr::Add(Box::new(self), Box::new(o))
    }

    /// The difference `self - o`, as a formula.
    pub open spec fn spec_minus(self, o: Expr) -> Expr {
        Expr::Sub(Box::new(self), Box::new(o))
    }

    /// Builds the difference `self - o`.
    #[verifier::when_used_as_spec(spec_minus)]
    pub fn minus(self, o: Expr) -> (r: Expr)
        ensures
            r == self.spec_minus(o),
    {
        Expr::Sub(Box::new(self), Box::new(o))
    }

    /// The product `self * o`, as a formula.
    pub open spec fn spec_times(self, o: Expr) -> Expr {
        Expr::Mul(Box::new(self), Box::new(o))
    }

    /// Builds the product `self * o`.
    #[verifier::when_used_as_spec(spec_times)]
    pub fn times(self, o: Expr) -> (r: Expr)
        ensures
            r == self.spec_times(o),
    {
        Expr::Mul(Box::new(self), Box::new(o))
    }

    /// The quotient `self / o`, as a formula.
    pub open spec fn spec_over(self, o: Expr) -> Expr {
        Expr::Div(Box::new(self), Box::new(o))
    }

    /// Builds the quotient `self / o`.
    #[verifier::when_used_as_spec(spec_over)]
    pub fn over(self, o: Expr) -> (r: Expr)
        ensures
            r == self.spec_over(o),
    {
        Expr::Div(Box::new(self), Box::new(o))
    }

    /// The tangent of `self`, as a formula.
    pub open spec fn spec_tan(self) -> Expr {
        Expr::Tan(Box::new(self))
    }

    /// Builds the tangent of `self`.
    #[verifier::when_used_as_spec(spec_tan)]
    pub fn tan(self) -> (r: Expr)
        ensures
            r == self.spec_tan(),
    {
        Expr::Tan(Box::new(self))
    }

    /// The sine of `self`, as a formula.
    pub open spec fn spec_sin(self) -> Expr {
        Expr::Sin(Box::new(self))
    }

    /// Builds the sine of `self`.
    #[verifier::when_used_as_spec(spec_sin)]
    pub fn sin(self) -> (r: Expr)
        ensures
            r == self.spec_sin(),
    {
        Expr::Sin(Box::new(self))
    }

    /// The cosine of `self`, as a formula.
    pub open spec fn spec_cos(self) -> Expr {
        Expr::Cos(Box::new(self))
    }

    /// Builds the cosine of `self`.
    #[verifier::when_used_as_spec(spec_cos)]
    pub fn cos(self) -> (r: Expr)
        ensures
            r == self.spec_cos(),
    {
        Expr::Cos(Box::new(self))
    }

    /// The natural exponential of `self`, as a formula.
    pub open spec fn spec_exp(self) -> Expr {
        Expr::Exp(Box::new(self))
    }

    /// Builds the natural exponential of `self`.
    #[verifier::when_used_as_spec(spec_exp)]
    pub fn exp(self) -> (r: Expr)
        ensures
            r == self.spec_exp(),
    {
        Expr::Exp(Box::new(self))
    }

    /// The second power of `self`, as a formula.
    pub open spec fn spec_sq(self) -> Expr {
        Expr::Sq(Box::new(self))
    }

    /// Builds the second power of `self`.
    #[verifier::when_used_as_spec(spec_sq)]
    pub fn sq(self) -> (r: Expr)
        ensures
            r == self.spec_sq(),
    {
        Expr::Sq(Box::new(self))
    }
}

} // verus!
