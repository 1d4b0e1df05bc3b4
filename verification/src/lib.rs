//! Lattices: the `ProtoLattice`, `Lattice` and `BoundedLattice` traits, their
//! instances for the primitive and compound types of std, the `Dual` wrapper,
//! and the laws that the instances obey; besides, the cycle graphs and the
//! fact-file rows that the Datalog benchmarks feed to their programs.
//!
//! What the library does not promise:
//! - The in-place `Lattice` operations (`meet_mut`, `join_mut`, `Lattice::meet`,
//!   `Lattice::join`) state their results only under `obeys_lattice_spec`, which
//!   no proof here establishes for tuples, `()`, `Box` and `Rc`, since nothing
//!   specifies the `Clone` of tuples and of `()` or the `==` of `Box` and `Rc`; for
//!   those types the four functions promise nothing about their results.
//! - There are no instances for `f32` and `f64`.
//! - `Dual` has no `Ord`; it orders by `PartialOrd` alone.
//! - `()` is a `ProtoLattice` but not a `BoundedLattice`.

pub mod lattice;
pub mod laws;
pub mod scalar;
pub mod option;
pub mod dual;
pub mod pointer;
pub mod tuple;
pub mod graph;
pub mod facts;
