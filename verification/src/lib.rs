//! Bearing-capacity factor calculator for shallow foundations.
//!
//! Five classical methods (Terzaghi, Meyerhof, Vesic, Hansen, EC7) each map a
//! soil friction angle `phi` (in degrees) to three dimensionless factors:
//! `Nq` (surcharge), `Nc` (cohesion) and `Ngamma` (unit weight).
//!
//! The factors are real-valued formulas over `phi` built from rational
//! constants, pi and transcendental functions.  This crate states each
//! method's three formulas exactly, as symbolic expression trees
//! ([`formula::Expr`]), and proves the structural facts that relate the
//! methods: which formulas they share, which limiting constant each one
//! substitutes for `Nc` at a non-positive angle, and that every plan is a
//! fixed, well-formed value.  A numeric front end evaluates the trees in
//! floating point, which stays outside the verified core.

pub mod formula;
pub mod methods;
