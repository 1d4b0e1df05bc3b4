use vstd::prelude::*;
use vstd::laws_eq::obeys_concrete_eq;
use vstd::pervasive::strictly_cloned;
use vstd::std_specs::cmp::{PartialEqSpec, PartialOrdSpec};
use core::cmp::Ordering;
use crate::lattice::{clone_is_exact, BoundedLattice, Lattice, ProtoLattice};
use crate::laws::{
    absorptive, associative, commutative, is_bounded, is_lattice, law_meet_join_order,
    lemma_absorptive, lemma_associative, lemma_bounded, lemma_commutative, lemma_order_agrees,
    order_agrees,
};

verus! {

/// A wrapper that inverts `<=` and `>=` (or `partial_cmp` for `PartialOrd` types),
/// `meet` and `join` for `ProtoLattice`s, and `top` and `bottom` for `BoundedLattice`s.
///
/// # Example
/// ```
/// assert!(Dual(2) < Dual(1));
/// ```
#[derive(Eq, Copy, Hash)]
pub struct Dual<T>(pub T);

impl<T: Clone> Clone for Dual<T> {
    fn clone(&self) -> (r: Self)
        ensures
            strictly_cloned(self.0, r.0),
    {
        Dual(self.0.clone())
    }
}

impl<T: PartialEq> PartialEq for Dual<T> {
    fn eq(&self, other: &Self) -> (r: bool) {
        self.0 == other.0
    }
}

impl<T: PartialEq> vstd::std_specs::cmp::PartialEqSpecImpl for Dual<T> {
    open spec fn obeys_eq_spec() -> bool {
        T::obeys_eq_spec()
    }

    open spec fn eq_spec(&self, other: &Self) -> bool {
        self.0.eq_spec(&other.0)
    }
}

impl<T: PartialOrd> PartialOrd for Dual<T> {
    fn partial_cmp(&self, other: &Self) -> (r: Option<Ordering>) {
        other.0.partial_cmp(&self.0)
    }
}

impl<T: PartialOrd> vstd::std_specs::cmp::PartialOrdSpecImpl for Dual<T> {
    open spec fn obeys_partial_cmp_spec() -> bool {
        T::obeys_partial_cmp_spec()
    }

    open spec fn partial_cmp_spec(&self, other: &Self) -> Option<Ordering> {
        other.0.partial_cmp_spec(&self.0)
    }
}

impl<T: ProtoLattice> ProtoLattice for Dual<T> {
    open spec fn obeys_proto_spec() -> bool {
        T::obeys_proto_spec()
    }

    open spec fn meet_spec(self, other: Self) -> Self {
        Dual(self.0.join_spec(other.0))
    }

    open spec fn join_spec(self, other: Self) -> Self {
        Dual(self.0.meet_spec(other.0))
    }

    fn meet(self, other: Self) -> (r: Self) {
        Dual(self.0.join(other.0))
    }

    fn join(self, other: Self) -> (r: Self) {
        Dual(self.0.meet(other.0))
    }
}

impl<T> BoundedLattice for Dual<T> where T: BoundedLattice, Dual<T>: Lattice {
    open spec fn bottom_spec() -> Self {
        Dual(T::top_spec())
    }

    open spec fn top_spec() -> Self {
        Dual(T::bottom_spec())
    }

    fn bottom() -> (r: Self) {
        Dual(T::top())
    }

    fn top() -> (r: Self) {
        Dual(T::bottom())
    }
}

/// If `T` is a lattice, so is `Dual<T>`, with meet and join exchanged.
pub proof fn law_dual_lattice<T: ProtoLattice>()
    requires
        is_lattice::<T>(),
    ensures
        is_lattice::<Dual<T>>(),
{
    assert forall|a: Dual<T>, b: Dual<T>|
        #[trigger] a.meet_spec(b) == b.meet_spec(a) && a.join_spec(b) == b.join_spec(a) by {
        lemma_commutative(a.0, b.0);
    }
    assert forall|a: Dual<T>, b: Dual<T>, c: Dual<T>|
        #[trigger] a.meet_spec(b).meet_spec(c) == a.meet_spec(b.meet_spec(c))
        && a.join_spec(b).join_spec(c) == a.join_spec(b.join_spec(c)) by {
        lemma_associative(a.0, b.0, c.0);
    }
    assert forall|a: Dual<T>, b: Dual<T>|
        #[trigger] a.meet_spec(a.join_spec(b)) == a && a.join_spec(a.meet_spec(b)) == a by {
        lemma_absorptive(a.0, b.0);
    }
    reveal(commutative);
    reveal(associative);
    reveal(absorptive);
}

/// If `T` is bounded, `Dual<T>` is bounded by `Dual(T::top())` below and
/// `Dual(T::bottom())` above.
pub proof fn law_dual_bounded<T: BoundedLattice + ProtoLattice>()
    where
        Dual<T>: BoundedLattice,
    requires
        is_bounded::<T>(),
    ensures
        is_bounded::<Dual<T>>(),
{
    assert forall|x: Dual<T>|
        Dual::<T>::bottom_spec().join_spec(x) == x && #[trigger] Dual::<T>::top_spec().meet_spec(x)
            == x by {
        lemma_bounded::<T>(x.0);
    }
    reveal(is_bounded);
}

/// If the order of the lattice `T` agrees with its meet, then the reversed
/// order of `Dual<T>` agrees with the meet of `Dual<T>` (the join of `T`).
pub proof fn law_dual_order<T: ProtoLattice>()
    requires
        is_lattice::<T>(),
        order_agrees::<T>(),
    ensures
        order_agrees::<Dual<T>>(),
{
    lemma_order_agrees::<T>(arbitrary(), arbitrary());
    assert forall|a: Dual<T>, b: Dual<T>|
        #![trigger a.partial_cmp_spec(&b)]
        a.partial_cmp_spec(&b) matches Some(Ordering::Less | Ordering::Equal) <==> a.meet_spec(b)
            == a by {
        lemma_order_agrees(b.0, a.0);
        law_meet_join_order(b.0, a.0);
        lemma_commutative(a.0, b.0);
    }
    reveal(order_agrees);
}

/// `Dual` reverses the order of `T` exactly: comparing `Dual(a)` with `Dual(b)`
/// gives what comparing `b` with `a` gives, and `Dual(a) == Dual(b)` is `a == b`.
pub proof fn law_dual_reverses_order<T: PartialOrd>(a: T, b: T)
    ensures
        Dual::<T>::obeys_partial_cmp_spec() == T::obeys_partial_cmp_spec(),
        Dual(a).partial_cmp_spec(&Dual(b)) == b.partial_cmp_spec(&a),
        Dual::<T>::obeys_eq_spec() == T::obeys_eq_spec(),
        Dual(a).eq_spec(&Dual(b)) == a.eq_spec(&b),
{
}

/// `Dual` exchanges meet and join: the meet of `Dual(a)` and `Dual(b)` wraps the
/// join of `a` and `b`, and their join wraps the meet.
pub proof fn law_dual_swaps_meet_join<T: ProtoLattice>(a: T, b: T)
    ensures
        Dual::<T>::obeys_proto_spec() == T::obeys_proto_spec(),
        Dual(a).meet_spec(Dual(b)) == Dual(a.join_spec(b)),
        Dual(a).join_spec(Dual(b)) == Dual(a.meet_spec(b)),
{
}

/// `Dual` exchanges bottom and top.
pub proof fn law_dual_swaps_bounds<T: BoundedLattice>()
    where
        Dual<T>: BoundedLattice,
    ensures
        Dual::<T>::bottom_spec() == Dual(T::top_spec()),
        Dual::<T>::top_spec() == Dual(T::bottom_spec()),
{
}

/// Dualising twice gives back the meet, the join and the order of `T`.
pub proof fn law_dual_dual<T: ProtoLattice>(a: T, b: T)
    ensures
        Dual(Dual(a)).meet_spec(Dual(Dual(b))) == Dual(Dual(a.meet_spec(b))),
        Dual(Dual(a)).join_spec(Dual(Dual(b))) == Dual(Dual(a.join_spec(b))),
        Dual::<Dual<T>>::obeys_proto_spec() == T::obeys_proto_spec(),
        Dual::<Dual<T>>::obeys_partial_cmp_spec() == T::obeys_partial_cmp_spec(),
        Dual(Dual(a)).partial_cmp_spec(&Dual(Dual(b))) == a.partial_cmp_spec(&b),
{
}

/// If `T`'s `meet_mut`/`join_mut` are exact, so are those of `Dual<T>`.
pub proof fn law_dual_exact<T: ProtoLattice + Clone>()
    requires
        T::obeys_lattice_spec(),
    ensures
        Dual::<T>::obeys_lattice_spec(),
{
    reveal(obeys_concrete_eq);
    assert(clone_is_exact::<Dual<T>>());
}

} // verus!
