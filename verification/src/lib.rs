//! Creative dynamics: the regimes of a Lorenz-driven creative process and the
//! coupling rule of a network of creative agents.

pub mod coupling;
pub mod regime;
