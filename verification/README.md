# infer_base

Lattices for Datalog-style fixpoint computation, verified with Verus.

- `src/lattice.rs`: the traits `ProtoLattice` (meet and join by value),
  `Lattice` (in-place `meet_mut`/`join_mut` that report a change, given to every
  `ProtoLattice + Clone` type) and `BoundedLattice` (`bottom` and `top`).
- `src/scalar.rs`, `src/option.rs`, `src/tuple.rs`, `src/pointer.rs`,
  `src/dual.rs`: the instances for `bool`, the integer types, `()`, `Option`,
  tuples of up to eleven components, `Box`, `Rc`, and the order-reversing
  `Dual` wrapper, each with proofs that it is a (bounded) lattice.
- `src/laws.rs`: the lattice laws as predicates, and the laws that follow from
  them.
- `src/graph.rs`: the cycle graph that the transitive-closure benchmark runs on.
- `src/facts.rs`: the reading of one row of a fact file.
- `app/`: the two benchmark programs, whose Datalog rules the `ascent` macros
  compile.
