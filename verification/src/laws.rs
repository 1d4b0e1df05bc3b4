use vstd::prelude::*;
use vstd::std_specs::cmp::PartialOrdSpec;
use core::cmp::Ordering;
use crate::lattice::{BoundedLattice, Lattice, ProtoLattice};

verus! {

/// Meet and join do not depend on the order of their arguments.
#[verifier::opaque]
pub open spec fn commutative<T: ProtoLattice>() -> bool {
    &&& forall|a: T, b: T| #[trigger] a.meet_spec(b) == b.meet_spec(a)
    &&& forall|a: T, b: T| #[trigger] a.join_spec(b) == b.join_spec(a)
}

/// Meet and join do not depend on how a chain of them is bracketed.
#[verifier::opaque]
pub open spec fn associative<T: ProtoLattice>() -> bool {
    &&& forall|a: T, b: T, c: T| #[trigger]
        a.meet_spec(b).meet_spec(c) == a.meet_spec(b.meet_spec(c))
    &&& forall|a: T, b: T, c: T| #[trigger]
        a.join_spec(b).join_spec(c) == a.join_spec(b.join_spec(c))
}

/// Meet undoes a join with the same value, and join undoes a meet.
#[verifier::opaque]
pub open spec fn absorptive<T: ProtoLattice>() -> bool {
    &&& forall|a: T, b: T| #[trigger] a.meet_spec(a.join_spec(b)) == a
    &&& forall|a: T, b: T| #[trigger] a.join_spec(a.meet_spec(b)) == a
}

/// `meet_spec` and `join_spec` make `T` a lattice: commutativity, associativity
/// and absorption hold.
pub open spec fn is_lattice<T: ProtoLattice>() -> bool {
    &&& commutative::<T>()
    &&& associative::<T>()
    &&& absorptive::<T>()
}

/// `bottom` is the unit of join and `top` the unit of meet.
#[verifier::opaque]
pub open spec fn is_bounded<T: BoundedLattice + ProtoLattice>() -> bool {
    &&& forall|x: T| #[trigger] T::bottom_spec().join_spec(x) == x
    &&& forall|x: T| #[trigger] T::top_spec().meet_spec(x) == x
}

/// `a <= b` by `PartialOrd` holds exactly when the meet of `a` and `b` is `a`.
#[verifier::opaque]
pub open spec fn order_agrees<T: ProtoLattice>() -> bool {
    &&& T::obeys_partial_cmp_spec()
    &&& forall|a: T, b: T| #[trigger]
        a.partial_cmp_spec(&b) matches Some(Ordering::Less | Ordering::Equal) <==> a.meet_spec(b)
            == a
}

/// Commutativity, for two given values.
pub proof fn lemma_commutative<T: ProtoLattice>(a: T, b: T)
    requires
        commutative::<T>(),
    ensures
        a.meet_spec(b) == b.meet_spec(a),
        a.join_spec(b) == b.join_spec(a),
{
    reveal(commutative);
}

/// Associativity, for three given values.
pub proof fn lemma_associative<T: ProtoLattice>(a: T, b: T, c: T)
    requires
        associative::<T>(),
    ensures
        a.meet_spec(b).meet_spec(c) == a.meet_spec(b.meet_spec(c)),
        a.join_spec(b).join_spec(c) == a.join_spec(b.join_spec(c)),
{
    reveal(associative);
}

/// Absorption, for two given values.
pub proof fn lemma_absorptive<T: ProtoLattice>(a: T, b: T)
    requires
        absorptive::<T>(),
    ensures
        a.meet_spec(a.join_spec(b)) == a,
        a.join_spec(a.meet_spec(b)) == a,
{
    reveal(absorptive);
}

/// The units of a bounded lattice, for a given value.
pub proof fn lemma_bounded<T: BoundedLattice + ProtoLattice>(x: T)
    requires
        is_bounded::<T>(),
    ensures
        T::bottom_spec().join_spec(x) == x,
        T::top_spec().meet_spec(x) == x,
{
    reveal(is_bounded);
}

/// Agreement of the order with meet, for two given values.
pub proof fn lemma_order_agrees<T: ProtoLattice>(a: T, b: T)
    requires
        order_agrees::<T>(),
    ensures
        T::obeys_partial_cmp_spec(),
        a.partial_cmp_spec(&b) matches Some(Ordering::Less | Ordering::Equal) <==> a.meet_spec(b)
            == a,
{
    reveal(order_agrees);
}

/// In a lattice, meet and join are idempotent.
pub proof fn law_idempotent<T: ProtoLattice>(a: T)
    requires
        is_lattice::<T>(),
    ensures
        a.meet_spec(a) == a,
        a.join_spec(a) == a,
{
    lemma_absorptive(a, a);
    lemma_absorptive(a, a.meet_spec(a));
    lemma_absorptive(a, a.join_spec(a));
}

/// In a lattice, the meet of `a` and `b` is `a` exactly when their join is `b`:
/// meet and join define the same order.
pub proof fn law_meet_join_order<T: ProtoLattice>(a: T, b: T)
    requires
        is_lattice::<T>(),
    ensures
        (a.meet_spec(b) == a) <==> (a.join_spec(b) == b),
{
    lemma_commutative(a, b);
    lemma_absorptive(b, a);
    lemma_absorptive(a, b);
}

/// A second meet (or join) with the same value changes nothing: after
/// `meet_mut(b)` has run, another `meet_mut(b)` reports no change.
pub proof fn law_meet_join_settle<T: ProtoLattice>(a: T, b: T)
    requires
        is_lattice::<T>(),
    ensures
        a.meet_spec(b).meet_spec(b) == a.meet_spec(b),
        a.join_spec(b).join_spec(b) == a.join_spec(b),
{
    law_idempotent(b);
    lemma_associative(a, b, b);
}

/// The meet of `a` and `b` lies below both, and every common lower bound `c`
/// lies below it; dually, their join lies above both and below every common
/// upper bound.
pub proof fn law_greatest_lower_least_upper_bound<T: ProtoLattice>(a: T, b: T, c: T)
    requires
        is_lattice::<T>(),
    ensures
        a.meet_spec(b).meet_spec(a) == a.meet_spec(b),
        a.meet_spec(b).meet_spec(b) == a.meet_spec(b),
        (c.meet_spec(a) == c && c.meet_spec(b) == c) ==> c.meet_spec(a.meet_spec(b)) == c,
        a.join_spec(b).join_spec(a) == a.join_spec(b),
        a.join_spec(b).join_spec(b) == a.join_spec(b),
        (c.join_spec(a) == c && c.join_spec(b) == c) ==> c.join_spec(a.join_spec(b)) == c,
{
    law_idempotent(a);
    law_idempotent(b);
    lemma_associative(a, b, a);
    lemma_commutative(a, b);
    lemma_associative(a, a, b);
    lemma_associative(a, b, b);
    lemma_associative(c, a, b);
}

/// The in-place operations of the blanket `Lattice` are those of `ProtoLattice`:
/// `meet_mut`/`join_mut` (and `Lattice::meet`/`Lattice::join`) leave the meet and
/// the join that `ProtoLattice` defines.
pub proof fn law_lattice_is_proto_lattice<T: ProtoLattice + Clone>(a: T, b: T)
    ensures
        a.lattice_meet(b) == a.meet_spec(b),
        a.lattice_join(b) == a.join_spec(b),
{
}

/// Where the order agrees with the lattice, `join_mut(b)` on `a` reports a change
/// exactly when `b <= a` does not hold, and `meet_mut(b)` exactly when `a <= b` does
/// not hold.
pub proof fn law_change_iff_not_ordered<T: ProtoLattice>(a: T, b: T)
    requires
        is_lattice::<T>(),
        order_agrees::<T>(),
    ensures
        (a.join_spec(b) != a) <==> !(b.partial_cmp_spec(&a) matches Some(
            Ordering::Less
            | Ordering::Equal,
        )),
        (a.meet_spec(b) != a) <==> !(a.partial_cmp_spec(&b) matches Some(
            Ordering::Less
            | Ordering::Equal,
        )),
{
    lemma_order_agrees(b, a);
    lemma_order_agrees(a, b);
    law_meet_join_order(b, a);
    lemma_commutative(a, b);
}

} // verus!
