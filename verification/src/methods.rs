//! The five classical bearing-capacity methods, each stated as a plan: one
//! formula per factor.

use vstd::prelude::*;
use crate::formula::Expr;
use crate::formula::wf;

verus! {

/// The five classical calculation methods.
#[derive(Debug, Clone, Copy, PartialEq, Eq, Structural)]
pub enum Method {
    Terzaghi,
    Meyerhof,
    Vesic,
    Hansen,
    Ec7,
}

/// One method's three bearing-capacity factors, each as a formula over the
/// friction angle `phi` in degrees.
#[derive(Debug, PartialEq, Eq)]
pub struct MethodPlan {
    /// The surcharge factor `Nq`.
    pub nq: Expr,
    /// The cohesion factor `Nc`.
    pub nc: Expr,
    /// The unit-weight factor `Ngamma`.
    pub ngamma: Expr,
}

/// The friction angle converted to radians: `phi * pi / 180`.
pub open spec fn spec_phi_rad() -> Expr {
    Expr::Phi.times(Expr::Pi).over(Expr::Rat(180, 1))
}

/// Builds the friction angle in radians, `phi * pi / 180`.
#[verifier::when_used_as_spec(spec_phi_rad)]
pub fn phi_rad() -> (r: Expr)
    ensures
        r == spec_phi_rad(),
{
    Expr::Phi.times(Expr::Pi).over(Expr::Rat(180, 1))
}

/// The failure-wedge angle `45 + phi / 2` degrees, in radians:
/// `(45 + phi / 2) * pi / 180`.
pub open spec fn spec_wedge_rad() -> Expr {
    Expr::Rat(45, 1).plus(Expr::Phi.over(Expr::Rat(2, 1))).times(Expr::Pi).over(
        Expr::Rat(180, 1),
    )
}

/// Builds the failure-wedge angle `(45 + phi / 2) * pi / 180`.
#[verifier::when_used_as_spec(spec_wedge_rad)]
pub fn wedge_rad() -> (r: Expr)
    ensures
        r == spec_wedge_rad(),
{
    Expr::Rat(45, 1).plus(Expr::Phi.over(Expr::Rat(2, 1))).times(Expr::Pi).over(
        Expr::Rat(180, 1),
    )
}

/// The surcharge factor that Meyerhof, Vesic, Hansen and EC7 all share,
/// Reissner's solution: `exp(pi * tan(phi_rad)) * tan(wedge_rad)^2`.
pub open spec fn spec_reissner_nq() -> Expr {
    Expr::Pi.times(phi_rad().tan()).exp().times(wedge_rad().tan().sq())
}

/// Builds the shared surcharge factor `exp(pi * tan(phi_rad)) * tan(wedge_rad)^2`.
#[verifier::when_used_as_spec(spec_reissner_nq)]
pub fn reissner_nq() -> (r: Expr)
    ensures
        r == spec_reissner_nq(),
{
    Expr::Pi.times(phi_rad().tan()).exp().times(wedge_rad().tan().sq())
}

/// Terzaghi's own surcharge factor:
/// `exp(pi * (3/4 - phi / 360) * tan(phi_rad))^2 / (2 * cos(wedge_rad)^2)`.
/// The second power applies to the exponential numerator alone, not to the
/// whole ratio.
pub open spec fn spec_terzaghi_nq() -> Expr {
    Expr::Pi.times(Expr::Rat(75, 100).minus(Expr::Phi.over(Expr::Rat(360, 1)))).times(
        phi_rad().tan(),
    ).exp().sq().over(Expr::Rat(2, 1).times(wedge_rad().cos().sq()))
}

/// Builds Terzaghi's surcharge factor.
#[verifier::when_used_as_spec(spec_terzaghi_nq)]
pub fn terzaghi_nq() -> (r: Expr)
    ensures
        r == spec_terzaghi_nq(),
{
    Expr::Pi.times(Expr::Rat(75, 100).minus(Expr::Phi.over(Expr::Rat(360, 1)))).times(
        phi_rad().tan(),
    ).exp().sq().over(Expr::Rat(2, 1).times(wedge_rad().cos().sq()))
}

/// The limiting cohesion constant a method substitutes at a non-positive
/// angle, where `tan(phi_rad)` vanishes and the quotient form is undefined:
/// `5.71` for Terzaghi, `5.14` for the four others.
pub open spec fn spec_nc_limit(m: Method) -> Expr {
    if m is Terzaghi {
        Expr::Rat(571, 100)
    } else {
        Expr::Rat(514, 100)
    }
}

/// Builds the limiting cohesion constant of `m`.
#[verifier::when_used_as_spec(spec_nc_limit)]
pub fn nc_limit(m: Method) -> (r: Expr)
    ensures
        r == spec_nc_limit(m),
{
    match m {
        Method::Terzaghi => Expr::Rat(571, 100),
        _ => Expr::Rat(514, 100),
    }
}

/// The cohesion factor derived from a surcharge factor, for a positive angle:
/// `(nq - 1) * (1 / tan(phi_rad))`.
pub open spec fn spec_nc_from(nq: Expr) -> Expr {
    nq.minus(Expr::Rat(1, 1)).times(Expr::Rat(1, 1).over(phi_rad().tan()))
}

/// Builds the positive-angle cohesion formula `(nq - 1) * (1 / tan(phi_rad))`.
#[verifier::when_used_as_spec(spec_nc_from)]
pub fn nc_from(nq: Expr) -> (r: Expr)
    ensures
        r == spec_nc_from(nq),
{
    nq.minus(Expr::Rat(1, 1)).times(Expr::Rat(1, 1).over(phi_rad().tan()))
}

/// The full cohesion factor: the quotient form where `phi > 0`, the limiting
/// constant otherwise.
pub open spec fn spec_nc_branch(nq: Expr, limit: Expr) -> Expr {
    Expr::IfPhiPos(Box::new(spec_nc_from(nq)), Box::new(limit))
}

/// Builds the full cohesion factor with its zero-angle branch.
#[verifier::when_used_as_spec(spec_nc_branch)]
pub fn nc_branch(nq: Expr, limit: Expr) -> (r: Expr)
    ensures
        r == spec_nc_branch(nq, limit),
{
    Expr::IfPhiPos(Box::new(nc_from(nq)), Box::new(limit))
}

/// Terzaghi's unit-weight factor:
/// `2 * (nq + 1) * tan(phi_rad) / (1 + 0.4 * sin(4 * phi_rad))`.
pub open spec fn spec_terzaghi_ngamma(nq: Expr) -> Expr {
    Expr::Rat(2, 1).times(nq.plus(Expr::Rat(1, 1))).times(phi_rad().tan()).over(
        Expr::Rat(1, 1).plus(
            Expr::Rat(4, 10).times(
                Expr::Rat(4, 1).times(Expr::Phi).times(Expr::Pi).over(Expr::Rat(180, 1)).sin(),
            ),
        ),
    )
}

/// Builds Terzaghi's unit-weight factor.
#[verifier::when_used_as_spec(spec_terzaghi_ngamma)]
pub fn terzaghi_ngamma(nq: Expr) -> (r: Expr)
    ensures
        r == spec_terzaghi_ngamma(nq),
{
    Expr::Rat(2, 1).times(nq.plus(Expr::Rat(1, 1))).times(phi_rad().tan()).over(
        Expr::Rat(1, 1).plus(
            Expr::Rat(4, 10).times(
                Expr::Rat(4, 1).times(Expr::Phi).times(Expr::Pi).over(Expr::Rat(180, 1)).sin(),
            ),
        ),
    )
}

/// Meyerhof's unit-weight factor: `(nq - 1) * tan(1.4 * phi_rad)`.
pub open spec fn spec_meyerhof_ngamma(nq: Expr) -> Expr {
    nq.minus(Expr::Rat(1, 1)).times(
        Expr::Phi.times(Expr::Rat(14, 10)).times(Expr::Pi).over(Expr::Rat(180, 1)).tan(),
    )
}

/// Builds Meyerhof's unit-weight factor.
#[verifier::when_used_as_spec(spec_meyerhof_ngamma)]
pub fn meyerhof_ngamma(nq: Expr) -> (r: Expr)
    ensures
        r == spec_meyerhof_ngamma(nq),
{
    nq.minus(Expr::Rat(1, 1)).times(
        Expr::Phi.times(Expr::Rat(14, 10)).times(Expr::Pi).over(Expr::Rat(180, 1)).tan(),
    )
}

/// Vesic's unit-weight factor: `2 * (nq + 1) * tan(phi_rad)`.
pub open spec fn spec_vesic_ngamma(nq: Expr) -> Expr {
    Expr::Rat(2, 1).times(nq.plus(Expr::Rat(1, 1))).times(phi_rad().tan())
}

/// Builds Vesic's unit-weight factor.
#[verifier::when_used_as_spec(spec_vesic_ngamma)]
pub fn vesic_ngamma(nq: Expr) -> (r: Expr)
    ensures
        r == spec_vesic_ngamma(nq),
{
    Expr::Rat(2, 1).times(nq.plus(Expr::Rat(1, 1))).times(phi_rad().tan())
}

/// Hansen's unit-weight factor: `1.5 * (nq - 1) * tan(phi_rad)`.
pub open spec fn spec_hansen_ngamma(nq: Expr) -> Expr {
    Expr::Rat(15, 10).times(nq.minus(Expr::Rat(1, 1))).times(phi_rad().tan())
}

/// Builds Hansen's unit-weight factor.
#[verifier::when_used_as_spec(spec_hansen_ngamma)]
pub fn hansen_ngamma(nq: Expr) -> (r: Expr)
    ensures
        r == spec_hansen_ngamma(nq),
{
    Expr::Rat(15, 10).times(nq.minus(Expr::Rat(1, 1))).times(phi_rad().tan())
}

/// The EC7 unit-weight factor: `2 * (nq - 1) * tan(phi_rad)`.
pub open spec fn spec_ec7_ngamma(nq: Expr) -> Expr {
    Expr::Rat(2, 1).times(nq.minus(Expr::Rat(1, 1))).times(phi_rad().tan())
}

/// Builds the EC7 unit-weight factor.
#[verifier::when_used_as_spec(spec_ec7_ngamma)]
pub fn ec7_ngamma(nq: Expr) -> (r: Expr)
    ensures
        r == spec_ec7_ngamma(nq),
{
    Expr::Rat(2, 1).times(nq.minus(Expr::Rat(1, 1))).times(phi_rad().tan())
}

/// Terzaghi's plan: his own surcharge factor, the cohesion branch with
/// limiting constant `5.71`, and his unit-weight factor with the sine
/// correction in the denominator.
pub open spec fn spec_terzaghi() -> MethodPlan {
    MethodPlan {
        nq: spec_terzaghi_nq(),
        nc: spec_nc_branch(spec_terzaghi_nq(), spec_nc_limit(Method::Terzaghi)),
        ngamma: spec_terzaghi_ngamma(spec_terzaghi_nq()),
    }
}

/// Builds Terzaghi's plan.
pub fn terzaghi() -> (r: MethodPlan)
    ensures
        r == spec_terzaghi(),
{
    MethodPlan {
        nq: terzaghi_nq(),
        nc: nc_branch(terzaghi_nq(), nc_limit(Method::Terzaghi)),
        ngamma: terzaghi_ngamma(terzaghi_nq()),
    }
}

/// Meyerhof's plan: the shared surcharge factor, the cohesion branch with
/// limiting constant `5.14`, and a unit-weight factor over the inclined angle
/// `1.4 * phi`.
pub open spec fn spec_meyerhof() -> MethodPlan {
    MethodPlan {
        nq: spec_reissner_nq(),
        nc: spec_nc_branch(spec_reissner_nq(), spec_nc_limit(Method::Meyerhof)),
        ngamma: spec_meyerhof_ngamma(spec_reissner_nq()),
    }
}

/// Builds Meyerhof's plan.
pub fn meyerhof() -> (r: MethodPlan)
    ensures
        r == spec_meyerhof(),
{
    MethodPlan {
        nq: reissner_nq(),
        nc: nc_branch(reissner_nq(), nc_limit(Method::Meyerhof)),
        ngamma: meyerhof_ngamma(reissner_nq()),
    }
}

/// Vesic's plan: the shared surcharge factor, the cohesion branch with
/// limiting constant `5.14`, and his unit-weight factor.
pub open spec fn spec_vesic() -> MethodPlan {
    MethodPlan {
        nq: spec_reissner_nq(),
        nc: spec_nc_branch(spec_reissner_nq(), spec_nc_limit(Method::Vesic)),
        ngamma: spec_vesic_ngamma(spec_reissner_nq()),
    }
}

/// Builds Vesic's plan.
pub fn vesic() -> (r: MethodPlan)
    ensures
        r == spec_vesic(),
{
    MethodPlan {
        nq: reissner_nq(),
        nc: nc_branch(reissner_nq(), nc_limit(Method::Vesic)),
        ngamma: vesic_ngamma(reissner_nq()),
    }
}

/// Hansen's plan: the shared surcharge factor, the cohesion branch with
/// limiting constant `5.14`, and his unit-weight factor.
pub open spec fn spec_hansen() -> MethodPlan {
    MethodPlan {
        nq: spec_reissner_nq(),
        nc: spec_nc_branch(spec_reissner_nq(), spec_nc_limit(Method::Hansen)),
        ngamma: spec_hansen_ngamma(spec_reissner_nq()),
    }
}

/// Builds Hansen's plan.
pub fn hansen() -> (r: MethodPlan)
    ensures
        r == spec_hansen(),
{
    MethodPlan {
        nq: reissner_nq(),
        nc: nc_branch(reissner_nq(), nc_limit(Method::Hansen)),
        ngamma: hansen_ngamma(reissner_nq()),
    }
}

/// The EC7 plan: the shared surcharge factor, the cohesion branch with
/// limiting constant `5.14`, and the EC7 unit-weight factor.
pub open spec fn spec_ec7() -> MethodPlan {
    MethodPlan {
        nq: spec_reissner_nq(),
        nc: spec_nc_branch(spec_reissner_nq(), spec_nc_limit(Method::Ec7)),
        ngamma: spec_ec7_ngamma(spec_reissner_nq()),
    }
}

/// Builds the EC7 plan.
pub fn ec7() -> (r: MethodPlan)
    ensures
        r == spec_ec7(),
{
    MethodPlan {
        nq: reissner_nq(),
        nc: nc_branch(reissner_nq(), nc_limit(Method::Ec7)),
        ngamma: ec7_ngamma(reissner_nq()),
    }
}

/// The plan of any method.
pub open spec fn spec_plan(m: Method) -> MethodPlan {
    match m {
        Method::Terzaghi => spec_terzaghi(),
        Method::Meyerhof => spec_meyerhof(),
        Method::Vesic => spec_vesic(),
        Method::Hansen => spec_hansen(),
        Method::Ec7 => spec_ec7(),
    }
}

/// Builds the plan of `m`.
pub fn plan(m: Method) -> (r: MethodPlan)
    ensures
        r == spec_plan(m),
{
    match m {
        Method::Terzaghi => terzaghi(),
        Method::Meyerhof => meyerhof(),
        Method::Vesic => vesic(),
        Method::Hansen => hansen(),
        Method::Ec7 => ec7(),
    }
}

/// Meyerhof, Vesic, Hansen and EC7 state one and the same surcharge-factor
/// formula, Reissner's, while Terzaghi's surcharge formula differs from it.
pub proof fn lemma_shared_surcharge_formula(a: Method, b: Method)
    requires
        a !is Terzaghi,
        b !is Terzaghi,
    ensures
        spec_plan(a).nq == spec_reissner_nq(),
        spec_plan(a).nq == spec_plan(b).nq,
        spec_plan(Method::Terzaghi).nq != spec_plan(a).nq,
{
}

/// Every method is a fixed plan: two results of the same method are equal,
/// whichever calls produced them.
pub proof fn lemma_method_deterministic(m: Method, r1: MethodPlan, r2: MethodPlan)
    requires
        r1 == spec_plan(m),
        r2 == spec_plan(m),
    ensures
        r1 == r2,
{
}

/// Every method's cohesion factor branches on the sign of the angle: the
/// quotient form `(Nq - 1) * (1 / tan(phi_rad))` where `phi > 0`, and
/// otherwise the method's limiting constant, `5.71` for Terzaghi and `5.14`
/// for Meyerhof, Vesic, Hansen and EC7.
pub proof fn lemma_zero_angle_cohesion(m: Method)
    ensures
        spec_plan(m).nc == spec_nc_branch(spec_plan(m).nq, spec_nc_limit(m)),
        m is Terzaghi ==> spec_nc_limit(m) == Expr::Rat(571, 100),
        m !is Terzaghi ==> spec_nc_limit(m) == Expr::Rat(514, 100),
{
}

/// Every formula of every plan is well formed: each of its rational literals
/// has a positive denominator.
pub proof fn lemma_plan_wf(m: Method)
    ensures
        wf(spec_plan(m).nq),
        wf(spec_plan(m).nc),
        wf(spec_plan(m).ngamma),
{
    reveal_with_fuel(wf, 20);
}

} // verus!
