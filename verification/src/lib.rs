//! Planar three-body gravitational simulator with a comparative integrator
//! harness.
//!
//! The simulator is generic over the scalar type of the arithmetic: every
//! operation the formulas use is a method of [`scalar::Scalar`], and each
//! implementation fixes the meaning of its operations through paired spec
//! functions.  All contracts of the crate are stated over those spec
//! functions, so the result of every computation is pinned down as an exact
//! expression in the implementation's arithmetic.
//!
//! [`dynamics`] holds the right-hand sides, [`integrate`] the fixed-step
//! Euler and Runge–Kutta integrators, [`energy`] the conserved-quantity
//! diagnostic, [`state`] the state-vector algebra they share, and
//! [`harness`] the computational core of the experiment harness.

pub mod dynamics;
pub mod energy;
pub mod harness;
pub mod integrate;
pub mod scalar;
pub mod state;
