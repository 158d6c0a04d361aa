use vstd::prelude::*;

verus! {

/// The three creative regimes of a Lorenz system, by its parameter rho.
#[derive(Debug, Clone, Copy, PartialEq, Eq, Structural)]
pub enum Regime {
    /// rho below 5: the trajectory settles on a fixed point; rigid, no creativity.
    FixedPoint,
    /// rho from 5 up to 24.74: oscillation, stochastic resonance active.
    Periodic,
    /// rho above 24.74: strange attractor, full creativity.
    Chaotic,
}

/// The text that describes a regime.
pub open spec fn description_text(r: Regime) -> Seq<char> {
    match r {
        Regime::FixedPoint => "Rigid — needs noise/freedom to escape"@,
        Regime::Periodic => "Oscillating — stochastic resonance active"@,
        Regime::Chaotic => "Creative — strange attractor, needs focus"@,
    }
}

impl Regime {
    /// A one-line description of the regime and of what it needs.
    pub fn description(&self) -> (text: &'static str)
        ensures
            text@ == description_text(*self),
    {
        match self {
            Regime::FixedPoint => "Rigid — needs noise/freedom to escape",
            Regime::Periodic => "Oscillating — stochastic resonance active",
            Regime::Chaotic => "Creative — strange attractor, needs focus",
        }
    }
}

} // verus!
