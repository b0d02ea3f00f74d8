//! The numbers that govern a step.

use crate::body::Vector3;
use vstd::prelude::*;

verus! {

/// Bit pattern of `-10.0`.
pub const MINUS_TEN: u32 = 0xc120_0000;

/// Bit pattern of `0.25`.
pub const QUARTER: u32 = 0x3e80_0000;

/// Bit pattern of `0.02`.
pub const TWO_HUNDREDTHS: u32 = 0x3ca3_d70a;

/// What a step is run with. The real-valued entries are bit patterns.
#[derive(Clone, Copy, Debug, PartialEq, Eq, Structural)]
pub struct StepConfig {
    /// Acceleration of gravity.
    pub gravity: Vector3,
    /// Sweeps of the constraint solver in every step.
    pub solver_iterations: u32,
    /// Strength of the stabilisation that corrects drift in position.
    pub baumgarte_beta: u32,
    /// How deep two bodies may overlap before the stabilisation pushes back.
    pub penetration_slop: u32,
}

impl StepConfig {
    /// Gravity of ten downwards, five sweeps, stabilisation strength one
    /// quarter, and two hundredths of slop.
    pub open spec fn default_spec() -> StepConfig {
        StepConfig {
            gravity: Vector3 { x: 0, y: MINUS_TEN, z: 0 },
            solver_iterations: 5,
            baumgarte_beta: QUARTER,
            penetration_slop: TWO_HUNDREDTHS,
        }
    }
}

impl Default for StepConfig {
    fn default() -> (r: StepConfig)
        ensures
            r == StepConfig::default_spec(),
    {
        StepConfig {
            gravity: Vector3 { x: 0, y: MINUS_TEN, z: 0 },
            solver_iterations: 5,
            baumgarte_beta: QUARTER,
            penetration_slop: TWO_HUNDREDTHS,
        }
    }
}

} // verus!
