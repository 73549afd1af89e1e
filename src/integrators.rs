use vstd::prelude::*;

verus! {

/// The time-stepping schemes a simulation can run with.
#[derive(Debug, Clone, Copy, PartialEq, Eq, Structural)]
pub enum Integrators {
    /// Position from the old velocity, then velocity from the acceleration.
    Euler,
    /// Velocity from the acceleration, then position from the new velocity.
    EulerChromer,
    /// Half a velocity step, a position step, forces again, half a velocity step.
    VelocityVerlet,
    /// Classic fourth-order Runge-Kutta over position and velocity.
    RK4,
}

/// One piece of work in a simulation tick, run by the host in the order given.
#[derive(Debug, Clone, Copy, PartialEq, Eq, Structural)]
pub enum Phase {
    /// Reset accelerations and accumulate gravity and spring forces into them.
    ApplyForces,
    /// The explicit Euler update.
    EulerStep,
    /// The semi-implicit Euler update.
    EulerChromerStep,
    /// Half a velocity step with the previous acceleration, then a position step.
    VerletPositions,
    /// Half a velocity step with the acceleration just computed.
    VerletVelocities,
    /// A whole Runge-Kutta step, which evaluates the forces on its own four times.
    RungeKuttaStep,
    /// Recompute each spring's placement from the positions of its two ends.
    ResyncSprings,
}

/// The phases that run once, before the first tick.
pub open spec fn startup_of(i: Integrators) -> Seq<Phase> {
    match i {
        Integrators::VelocityVerlet => seq![Phase::ApplyForces],
        _ => seq![],
    }
}

/// The phases of one tick, in order; springs are resynchronised last.
pub open spec fn tick_of(i: Integrators) -> Seq<Phase> {
    match i {
        Integrators::Euler => seq![Phase::ApplyForces, Phase::EulerStep, Phase::ResyncSprings],
        Integrators::EulerChromer => seq![
            Phase::ApplyForces,
            Phase::EulerChromerStep,
            Phase::ResyncSprings,
        ],
        Integrators::VelocityVerlet => seq![
            Phase::VerletPositions,
            Phase::ApplyForces,
            Phase::VerletVelocities,
            Phase::ResyncSprings,
        ],
        Integrators::RK4 => seq![Phase::RungeKuttaStep, Phase::ResyncSprings],
    }
}

impl Integrators {
    /// The phases to run once before the first tick: Velocity Verlet needs the
    /// forces of the initial state to take its first half step.
    pub fn startup_phases(&self) -> (r: Vec<Phase>)
        ensures
            r@ == startup_of(*self),
    {
        let r: Vec<Phase> = match self {
            Integrators::VelocityVerlet => vec![Phase::ApplyForces],
            _ => Vec::new(),
        };
        assert(r@ =~= startup_of(*self));
        r
    }

    /// The phases of every tick, in the order they must run.
    pub fn tick_phases(&self) -> (r: Vec<Phase>)
        ensures
            r@ == tick_of(*self),
    {
        let r: Vec<Phase> = match self {
            Integrators::Euler => vec![Phase::ApplyForces, Phase::EulerStep, Phase::ResyncSprings],
            Integrators::EulerChromer => vec![
                Phase::ApplyForces,
                Phase::EulerChromerStep,
                Phase::ResyncSprings,
            ],
            Integrators::VelocityVerlet => vec![
                Phase::VerletPositions,
                Phase::ApplyForces,
                Phase::VerletVelocities,
                Phase::ResyncSprings,
            ],
            Integrators::RK4 => vec![Phase::RungeKuttaStep, Phase::ResyncSprings],
        };
        assert(r@ =~= tick_of(*self));
        r
    }
}

/// Whether phase `p` reads the accelerations computed earlier in the same tick.
pub open spec fn reads_fresh_forces(p: Phase) -> bool {
    p == Phase::EulerStep || p == Phase::EulerChromerStep || p == Phase::VerletVelocities
}

/// In every tick, whatever the scheme, each update that reads accelerations
/// of this tick runs after the forces have been accumulated.
pub proof fn lemma_forces_before_updates(i: Integrators, k: int)
    requires
        0 <= k < tick_of(i).len(),
        reads_fresh_forces(tick_of(i)[k]),
    ensures
        exists|j: int| 0 <= j < k && tick_of(i)[j] == Phase::ApplyForces,
{
    match i {
        Integrators::VelocityVerlet => assert(tick_of(i)[1] == Phase::ApplyForces),
        _ => assert(tick_of(i)[0] == Phase::ApplyForces),
    }
}

/// In every tick, whatever the scheme, the springs are resynchronised once
/// and after every other phase, so that shapes follow the positions just
/// computed.
pub proof fn lemma_resync_runs_last(i: Integrators)
    ensures
        tick_of(i).len() > 0,
        tick_of(i).last() == Phase::ResyncSprings,
        forall|k: int| 0 <= k < tick_of(i).len() - 1 ==> tick_of(i)[k] != Phase::ResyncSprings,
{
}

} // verus!
