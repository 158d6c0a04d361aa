# creative_engine

Creative dynamics after a Lorenz system: three regimes (fixed point, periodic,
chaotic) and a network of agents in which each agent listens to those with more
expertise.

- `src/` is the verified library: the regimes and their descriptions
  (`regime.rs`) and the coupling rule of a network (`coupling.rs`), whose
  contract states that coupling runs only from less to more expertise, never to
  the agent itself, and is transitive.
- `app/` holds the floating-point part: Lorenz integration, quality metrics, the
  rho thresholds, the network dynamics and the adaptive thermostat. It builds a
  network's coupling matrix from the verified coupling rule.
- `tests/` exercises the library.
