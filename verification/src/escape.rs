//! Classification outcomes of the escape-time / periodicity engine.
use vstd::prelude::*;

use crate::cplx::Cplx;
use crate::fix::Fix;

verus! {

/// A preperiodic / periodic combinatorial class.
#[derive(Clone, Copy, Debug, PartialEq, Eq, Structural)]
pub struct OrbitSchema {
    pub preperiod: u32,
    pub period: u32,
}

/// Data attached to an orbit that converged to a cycle: the point at
/// detection, the cycle length, the steps before the cycle, the product
/// of step derivatives along the cycle, and the residual distance.
#[derive(Clone, Copy, Debug, PartialEq, Eq, Structural)]
pub struct PointInfoPeriodic {
    pub value: Cplx,
    pub period: u32,
    pub preperiod: u32,
    pub multiplier: Cplx,
    pub final_error: Fix,
}

/// The long-run fate of one orbit, as the classifier reports it.
#[derive(Clone, Copy, Debug, PartialEq, Eq, Structural)]
pub enum EscapeState {
    /// The iteration budget is not exhausted and no decision was reached.
    NotYetEscaped,
    /// The orbit left the escape radius; the potential is the continuous
    /// renormalized iteration count.
    Escaping { potential: Fix },
    /// The orbit converged to a cycle within tolerance.
    Periodic { data: PointInfoPeriodic },
    /// The budget is exhausted with no escape or cycle: presumed bounded.
    Bounded,
    /// Bounded but recognizably not periodic.
    Wandering,
}

/// The rendering-facing classification of one sample point.
#[derive(Clone, Copy, Debug, PartialEq, Eq, Structural)]
pub enum PointInfo {
    Escaping { potential: Fix },
    Periodic { data: PointInfoPeriodic },
    PeriodicKnownPotential { data: PointInfoPeriodic, potential: Fix },
    Bounded,
    Wandering,
    /// A discrete combinatorial class, colored independently of the
    /// escape dynamics.
    MarkedPoint { class_id: u32, num_point_classes: u32 },
}

} // verus!
