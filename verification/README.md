# krabka-operator

The logic of a Kubernetes operator for Kafka clusters, verified with Verus.

- `src/` is the library. Verus proves its contracts, from what `outside` states of other
  crates.
  - `binary64`, `units`: extents of time, byte counts and fractions, with the exact
    meaning of their numbers.
  - `crd`: the settings of the custom resources, and their validation.
  - `leader_election`: what a replica does with the leader-election lease.
  - `health`, `run`: the phases of a process, what its health server answers, and
    how it stops.
  - `telemetry`: the registry of the metrics.
  - `context`: the clients that the reconcilers share.
  - `outside`: what the library believes of the crates that it calls.
- `tests/` runs the library with those crates.
- `app/` is the process around the library: Kubernetes requests, the health server,
  and the serialised forms of the custom resources.
