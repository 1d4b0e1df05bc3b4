use vstd::prelude::*;
use crate::lattice::{BoundedLattice, Lattice, ProtoLattice};
use crate::laws::{
    absorptive, associative, commutative, is_bounded, is_lattice, lemma_absorptive,
    lemma_associative, lemma_bounded, lemma_commutative,
};

verus! {
/// Tuples of 1 lattice meet and join component by component.
impl<T0: ProtoLattice> ProtoLattice for (T0,) {
    open spec fn obeys_proto_spec() -> bool {
        T0::obeys_proto_spec()
    }

    open spec fn meet_spec(self, other: Self) -> Self {
        (self.0.meet_spec(other.0),)
    }

    open spec fn join_spec(self, other: Self) -> Self {
        (self.0.join_spec(other.0),)
    }

    fn meet(self, other: Self) -> (r: Self) {
        (self.0.meet(other.0),)
    }

    fn join(self, other: Self) -> (r: Self) {
        (self.0.join(other.0),)
    }
}

impl<T0: BoundedLattice> BoundedLattice for (T0,) where (T0,): Lattice {
    open spec fn bottom_spec() -> Self {
        (T0::bottom_spec(),)
    }

    open spec fn top_spec() -> Self {
        (T0::top_spec(),)
    }

    fn bottom() -> (r: Self) {
        (T0::bottom(),)
    }

    fn top() -> (r: Self) {
        (T0::top(),)
    }
}

/// If every component is a lattice, so is the tuple of 1.
pub proof fn law_tuple1_lattice<T0: ProtoLattice>()
    requires
        is_lattice::<T0>(),
    ensures
        is_lattice::<(T0,)>(),
{
    assert forall|a: (T0,), b: (T0,)|
        #[trigger] a.meet_spec(b) == b.meet_spec(a) && a.join_spec(b) == b.join_spec(a) by {
        lemma_commutative(a.0, b.0);
    }
    assert forall|a: (T0,), b: (T0,), c: (T0,)|
        #[trigger] a.meet_spec(b).meet_spec(c) == a.meet_spec(b.meet_spec(c))
        && a.join_spec(b).join_spec(c) == a.join_spec(b.join_spec(c)) by {
        lemma_associative(a.0, b.0, c.0);
    }
    assert forall|a: (T0,), b: (T0,)|
        #[trigger] a.meet_spec(a.join_spec(b)) == a && a.join_spec(a.meet_spec(b)) == a by {
        lemma_absorptive(a.0, b.0);
    }
    reveal(commutative);
    reveal(associative);
    reveal(absorptive);
}

/// If every component is bounded, the tuple of 1 is bounded by the tuples of
/// bottoms and of tops.
pub proof fn law_tuple1_bounded<T0: BoundedLattice + ProtoLattice>()
    where
        (T0,): BoundedLattice,
    requires
        is_bounded::<T0>(),
    ensures
        is_bounded::<(T0,)>(),
{
    assert forall|x: (T0,)|
        <(T0,)>::bottom_spec().join_spec(x) == x && #[trigger] <(T0,)>::top_spec().meet_spec(x)
            == x by {
        lemma_bounded::<T0>(x.0);
    }
    reveal(is_bounded);
}

/// Tuples of 2 lattices meet and join component by component.
impl<T0: ProtoLattice, T1: ProtoLattice> ProtoLattice for (T0, T1) {
    open spec fn obeys_proto_spec() -> bool {
        T0::obeys_proto_spec() && T1::obeys_proto_spec()
    }

    open spec fn meet_spec(self, other: Self) -> Self {
        (self.0.meet_spec(other.0), self.1.meet_spec(other.1))
    }

    open spec fn join_spec(self, other: Self) -> Self {
        (self.0.join_spec(other.0), self.1.join_spec(other.1))
    }

    fn meet(self, other: Self) -> (r: Self) {
        (self.0.meet(other.0), self.1.meet(other.1))
    }

    fn join(self, other: Self) -> (r: Self) {
        (self.0.join(other.0), self.1.join(other.1))
    }
}

impl<T0: BoundedLattice, T1: BoundedLattice> BoundedLattice for (T0, T1) where (T0, T1): Lattice {
    open spec fn bottom_spec() -> Self {
        (T0::bottom_spec(), T1::bottom_spec())
    }

    open spec fn top_spec() -> Self {
        (T0::top_spec(), T1::top_spec())
    }

    fn bottom() -> (r: Self) {
        (T0::bottom(), T1::bottom())
    }

    fn top() -> (r: Self) {
        (T0::top(), T1::top())
    }
}

/// If every component is a lattice, so is the tuple of 2.
pub proof fn law_tuple2_lattice<T0: ProtoLattice, T1: ProtoLattice>()
    requires
        is_lattice::<T0>(),
        is_lattice::<T1>(),
    ensures
        is_lattice::<(T0, T1)>(),
{
    assert forall|a: (T0, T1), b: (T0, T1)|
        #[trigger] a.meet_spec(b) == b.meet_spec(a) && a.join_spec(b) == b.join_spec(a) by {
        lemma_commutative(a.0, b.0);
        lemma_commutative(a.1, b.1);
    }
    assert forall|a: (T0, T1), b: (T0, T1), c: (T0, T1)|
        #[trigger] a.meet_spec(b).meet_spec(c) == a.meet_spec(b.meet_spec(c))
        && a.join_spec(b).join_spec(c) == a.join_spec(b.join_spec(c)) by {
        lemma_associative(a.0, b.0, c.0);
        lemma_associative(a.1, b.1, c.1);
    }
    assert forall|a: (T0, T1), b: (T0, T1)|
        #[trigger] a.meet_spec(a.join_spec(b)) == a && a.join_spec(a.meet_spec(b)) == a by {
        lemma_absorptive(a.0, b.0);
        lemma_absorptive(a.1, b.1);
    }
    reveal(commutative);
    reveal(associative);
    reveal(absorptive);
}

/// If every component is bounded, the tuple of 2 is bounded by the tuples of
/// bottoms and of tops.
pub proof fn law_tuple2_bounded<T0: BoundedLattice + ProtoLattice, T1: BoundedLattice + ProtoLattice>()
    where
        (T0, T1): BoundedLattice,
    requires
        is_bounded::<T0>(),
        is_bounded::<T1>(),
    ensures
        is_bounded::<(T0, T1)>(),
{
    assert forall|x: (T0, T1)|
        <(T0, T1)>::bottom_spec().join_spec(x) == x && #[trigger] <(T0, T1)>::top_spec().meet_spec(x)
            == x by {
        lemma_bounded::<T0>(x.0);
        lemma_bounded::<T1>(x.1);
    }
    reveal(is_bounded);
}

/// Tuples of 3 lattices meet and join component by component.
impl<T0: ProtoLattice, T1: ProtoLattice, T2: ProtoLattice> ProtoLattice for (T0, T1, T2) {
    open spec fn obeys_proto_spec() -> bool {
        T0::obeys_proto_spec() && T1::obeys_proto_spec() && T2::obeys_proto_spec()
    }

    open spec fn meet_spec(self, other: Self) -> Self {
        (self.0.meet_spec(other.0), self.1.meet_spec(other.1), self.2.meet_spec(other.2))
    }

    open spec fn join_spec(self, other: Self) -> Self {
        (self.0.join_spec(other.0), self.1.join_spec(other.1), self.2.join_spec(other.2))
    }

    fn meet(self, other: Self) -> (r: Self) {
        (self.0.meet(other.0), self.1.meet(other.1), self.2.meet(other.2))
    }

    fn join(self, other: Self) -> (r: Self) {
        (self.0.join(other.0), self.1.join(other.1), self.2.join(other.2))
    }
}

impl<T0: BoundedLattice, T1: BoundedLattice, T2: BoundedLattice> BoundedLattice for (T0, T1, T2) where (T0, T1, T2): Lattice {
    open spec fn bottom_spec() -> Self {
        (T0::bottom_spec(), T1::bottom_spec(), T2::bottom_spec())
    }

    open spec fn top_spec() -> Self {
        (T0::top_spec(), T1::top_spec(), T2::top_spec())
    }

    fn bottom() -> (r: Self) {
        (T0::bottom(), T1::bottom(), T2::bottom())
    }

    fn top() -> (r: Self) {
        (T0::top(), T1::top(), T2::top())
    }
}

/// If every component is a lattice, so is the tuple of 3.
pub proof fn law_tuple3_lattice<T0: ProtoLattice, T1: ProtoLattice, T2: ProtoLattice>()
    requires
        is_lattice::<T0>(),
        is_lattice::<T1>(),
        is_lattice::<T2>(),
    ensures
        is_lattice::<(T0, T1, T2)>(),
{
    assert forall|a: (T0, T1, T2), b: (T0, T1, T2)|
        #[trigger] a.meet_spec(b) == b.meet_spec(a) && a.join_spec(b) == b.join_spec(a) by {
        lemma_commutative(a.0, b.0);
        lemma_commutative(a.1, b.1);
        lemma_commutative(a.2, b.2);
    }
    assert forall|a: (T0, T1, T2), b: (T0, T1, T2), c: (T0, T1, T2)|
        #[trigger] a.meet_spec(b).meet_spec(c) == a.meet_spec(b.meet_spec(c))
        && a.join_spec(b).join_spec(c) == a.join_spec(b.join_spec(c)) by {
        lemma_associative(a.0, b.0, c.0);
        lemma_associative(a.1, b.1, c.1);
        lemma_associative(a.2, b.2, c.2);
    }
    assert forall|a: (T0, T1, T2), b: (T0, T1, T2)|
        #[trigger] a.meet_spec(a.join_spec(b)) == a && a.join_spec(a.meet_spec(b)) == a by {
        lemma_absorptive(a.0, b.0);
        lemma_absorptive(a.1, b.1);
        lemma_absorptive(a.2, b.2);
    }
    reveal(commutative);
    reveal(associative);
    reveal(absorptive);
}

/// If every component is bounded, the tuple of 3 is bounded by the tuples of
/// bottoms and of tops.
pub proof fn law_tuple3_bounded<T0: BoundedLattice + ProtoLattice, T1: BoundedLattice + ProtoLattice, T2: BoundedLattice + ProtoLattice>()
    where
        (T0, T1, T2): BoundedLattice,
    requires
        is_bounded::<T0>(),
        is_bounded::<T1>(),
        is_bounded::<T2>(),
    ensures
        is_bounded::<(T0, T1, T2)>(),
{
    assert forall|x: (T0, T1, T2)|
        <(T0, T1, T2)>::bottom_spec().join_spec(x) == x && #[trigger] <(T0, T1, T2)>::top_spec().meet_spec(x)
            == x by {
        lemma_bounded::<T0>(x.0);
        lemma_bounded::<T1>(x.1);
        lemma_bounded::<T2>(x.2);
    }
    reveal(is_bounded);
}

/// Tuples of 4 lattices meet and join component by component.
impl<T0: ProtoLattice, T1: ProtoLattice, T2: ProtoLattice, T3: ProtoLattice> ProtoLattice for (T0, T1, T2, T3) {
    open spec fn obeys_proto_spec() -> bool {
        T0::obeys_proto_spec() && T1::obeys_proto_spec() && T2::obeys_proto_spec() && T3::obeys_proto_spec()
    }

    open spec fn meet_spec(self, other: Self) -> Self {
        (self.0.meet_spec(other.0), self.1.meet_spec(other.1), self.2.meet_spec(other.2), self.3.meet_spec(other.3))
    }

    open spec fn join_spec(self, other: Self) -> Self {
        (self.0.join_spec(other.0), self.1.join_spec(other.1), self.2.join_spec(other.2), self.3.join_spec(other.3))
    }

    fn meet(self, other: Self) -> (r: Self) {
        (self.0.meet(other.0), self.1.meet(other.1), self.2.meet(other.2), self.3.meet(other.3))
    }

    fn join(self, other: Self) -> (r: Self) {
        (self.0.join(other.0), self.1.join(other.1), self.2.join(other.2), self.3.join(other.3))
    }
}

impl<T0: BoundedLattice, T1: BoundedLattice, T2: BoundedLattice, T3: BoundedLattice> BoundedLattice for (T0, T1, T2, T3) where (T0, T1, T2, T3): Lattice {
    open spec fn bottom_spec() -> Self {
        (T0::bottom_spec(), T1::bottom_spec(), T2::bottom_spec(), T3::bottom_spec())
    }

    open spec fn top_spec() -> Self {
        (T0::top_spec(), T1::top_spec(), T2::top_spec(), T3::top_spec())
    }

    fn bottom() -> (r: Self) {
        (T0::bottom(), T1::bottom(), T2::bottom(), T3::bottom())
    }

    fn top() -> (r: Self) {
        (T0::top(), T1::top(), T2::top(), T3::top())
    }
}

/// If every component is a lattice, so is the tuple of 4.
pub proof fn law_tuple4_lattice<T0: ProtoLattice, T1: ProtoLattice, T2: ProtoLattice, T3: ProtoLattice>()
    requires
        is_lattice::<T0>(),
        is_lattice::<T1>(),
        is_lattice::<T2>(),
        is_lattice::<T3>(),
    ensures
        is_lattice::<(T0, T1, T2, T3)>(),
{
    assert forall|a: (T0, T1, T2, T3), b: (T0, T1, T2, T3)|
        #[trigger] a.meet_spec(b) == b.meet_spec(a) && a.join_spec(b) == b.join_spec(a) by {
        lemma_commutative(a.0, b.0);
        lemma_commutative(a.1, b.1);
        lemma_commutative(a.2, b.2);
        lemma_commutative(a.3, b.3);
    }
    assert forall|a: (T0, T1, T2, T3), b: (T0, T1, T2, T3), c: (T0, T1, T2, T3)|
        #[trigger] a.meet_spec(b).meet_spec(c) == a.meet_spec(b.meet_spec(c))
        && a.join_spec(b).join_spec(c) == a.join_spec(b.join_spec(c)) by {
        lemma_associative(a.0, b.0, c.0);
        lemma_associative(a.1, b.1, c.1);
        lemma_associative(a.2, b.2, c.2);
        lemma_associative(a.3, b.3, c.3);
    }
    assert forall|a: (T0, T1, T2, T3), b: (T0, T1, T2, T3)|
        #[trigger] a.meet_spec(a.join_spec(b)) == a && a.join_spec(a.meet_spec(b)) == a by {
        lemma_absorptive(a.0, b.0);
        lemma_absorptive(a.1, b.1);
        lemma_absorptive(a.2, b.2);
        lemma_absorptive(a.3, b.3);
    }
    reveal(commutative);
    reveal(associative);
    reveal(absorptive);
}

/// If every component is bounded, the tuple of 4 is bounded by the tuples of
/// bottoms and of tops.
pub proof fn law_tuple4_bounded<T0: BoundedLattice + ProtoLattice, T1: BoundedLattice + ProtoLattice, T2: BoundedLattice + ProtoLattice, T3: BoundedLattice + ProtoLattice>()
    where
        (T0, T1, T2, T3): BoundedLattice,
    requires
        is_bounded::<T0>(),
        is_bounded::<T1>(),
        is_bounded::<T2>(),
        is_bounded::<T3>(),
    ensures
        is_bounded::<(T0, T1, T2, T3)>(),
{
    assert forall|x: (T0, T1, T2, T3)|
        <(T0, T1, T2, T3)>::bottom_spec().join_spec(x) == x && #[trigger] <(T0, T1, T2, T3)>::top_spec().meet_spec(x)
            == x by {
        lemma_bounded::<T0>(x.0);
        lemma_bounded::<T1>(x.1);
        lemma_bounded::<T2>(x.2);
        lemma_bounded::<T3>(x.3);
    }
    reveal(is_bounded);
}

/// Tuples of 5 lattices meet and join component by component.
impl<T0: ProtoLattice, T1: ProtoLattice, T2: ProtoLattice, T3: ProtoLattice, T4: ProtoLattice> ProtoLattice for (T0, T1, T2, T3, T4) {
    open spec fn obeys_proto_spec() -> bool {
        T0::obeys_proto_spec() && T1::obeys_proto_spec() && T2::obeys_proto_spec() && T3::obeys_proto_spec() && T4::obeys_proto_spec()
    }

    open spec fn meet_spec(self, other: Self) -> Self {
        (self.0.meet_spec(other.0), self.1.meet_spec(other.1), self.2.meet_spec(other.2), self.3.meet_spec(other.3), self.4.meet_spec(other.4))
    }

    open spec fn join_spec(self, other: Self) -> Self {
        (self.0.join_spec(other.0), self.1.join_spec(other.1), self.2.join_spec(other.2), self.3.join_spec(other.3), self.4.join_spec(other.4))
    }

    fn meet(self, other: Self) -> (r: Self) {
        (self.0.meet(other.0), self.1.meet(other.1), self.2.meet(other.2), self.3.meet(other.3), self.4.meet(other.4))
    }

    fn join(self, other: Self) -> (r: Self) {
        (self.0.join(other.0), self.1.join(other.1), self.2.join(other.2), self.3.join(other.3), self.4.join(other.4))
    }
}

impl<T0: BoundedLattice, T1: BoundedLattice, T2: BoundedLattice, T3: BoundedLattice, T4: BoundedLattice> BoundedLattice for (T0, T1, T2, T3, T4) where (T0, T1, T2, T3, T4): Lattice {
    open spec fn bottom_spec() -> Self {
        (T0::bottom_spec(), T1::bottom_spec(), T2::bottom_spec(), T3::bottom_spec(), T4::bottom_spec())
    }

    open spec fn top_spec() -> Self {
        (T0::top_spec(), T1::top_spec(), T2::top_spec(), T3::top_spec(), T4::top_spec())
    }

    fn bottom() -> (r: Self) {
        (T0::bottom(), T1::bottom(), T2::bottom(), T3::bottom(), T4::bottom())
    }

    fn top() -> (r: Self) {
        (T0::top(), T1::top(), T2::top(), T3::top(), T4::top())
    }
}

/// If every component is a lattice, so is the tuple of 5.
pub proof fn law_tuple5_lattice<T0: ProtoLattice, T1: ProtoLattice, T2: ProtoLattice, T3: ProtoLattice, T4: ProtoLattice>()
    requires
        is_lattice::<T0>(),
        is_lattice::<T1>(),
        is_lattice::<T2>(),
        is_lattice::<T3>(),
        is_lattice::<T4>(),
    ensures
        is_lattice::<(T0, T1, T2, T3, T4)>(),
{
    assert forall|a: (T0, T1, T2, T3, T4), b: (T0, T1, T2, T3, T4)|
        #[trigger] a.meet_spec(b) == b.meet_spec(a) && a.join_spec(b) == b.join_spec(a) by {
        lemma_commutative(a.0, b.0);
        lemma_commutative(a.1, b.1);
        lemma_commutative(a.2, b.2);
        lemma_commutative(a.3, b.3);
        lemma_commutative(a.4, b.4);
    }
    assert forall|a: (T0, T1, T2, T3, T4), b: (T0, T1, T2, T3, T4), c: (T0, T1, T2, T3, T4)|
        #[trigger] a.meet_spec(b).meet_spec(c) == a.meet_spec(b.meet_spec(c))
        && a.join_spec(b).join_spec(c) == a.join_spec(b.join_spec(c)) by {
        lemma_associative(a.0, b.0, c.0);
        lemma_associative(a.1, b.1, c.1);
        lemma_associative(a.2, b.2, c.2);
        lemma_associative(a.3, b.3, c.3);
        lemma_associative(a.4, b.4, c.4);
    }
    assert forall|a: (T0, T1, T2, T3, T4), b: (T0, T1, T2, T3, T4)|
        #[trigger] a.meet_spec(a.join_spec(b)) == a && a.join_spec(a.meet_spec(b)) == a by {
        lemma_absorptive(a.0, b.0);
        lemma_absorptive(a.1, b.1);
        lemma_absorptive(a.2, b.2);
        lemma_absorptive(a.3, b.3);
        lemma_absorptive(a.4, b.4);
    }
    reveal(commutative);
    reveal(associative);
    reveal(absorptive);
}

/// If every component is bounded, the tuple of 5 is bounded by the tuples of
/// bottoms and of tops.
pub proof fn law_tuple5_bounded<T0: BoundedLattice + ProtoLattice, T1: BoundedLattice + ProtoLattice, T2: BoundedLattice + ProtoLattice, T3: BoundedLattice + ProtoLattice, T4: BoundedLattice + ProtoLattice>()
    where
        (T0, T1, T2, T3, T4): BoundedLattice,
    requires
        is_bounded::<T0>(),
        is_bounded::<T1>(),
        is_bounded::<T2>(),
        is_bounded::<T3>(),
        is_bounded::<T4>(),
    ensures
        is_bounded::<(T0, T1, T2, T3, T4)>(),
{
    assert forall|x: (T0, T1, T2, T3, T4)|
        <(T0, T1, T2, T3, T4)>::bottom_spec().join_spec(x) == x && #[trigger] <(T0, T1, T2, T3, T4)>::top_spec().meet_spec(x)
            == x by {
        lemma_bounded::<T0>(x.0);
        lemma_bounded::<T1>(x.1);
        lemma_bounded::<T2>(x.2);
        lemma_bounded::<T3>(x.3);
        lemma_bounded::<T4>(x.4);
    }
    reveal(is_bounded);
}

/// Tuples of 6 lattices meet and join component by component.
impl<T0: ProtoLattice, T1: ProtoLattice, T2: ProtoLattice, T3: ProtoLattice, T4: ProtoLattice, T5: ProtoLattice> ProtoLattice for (T0, T1, T2, T3, T4, T5) {
    open spec fn obeys_proto_spec() -> bool {
        T0::obeys_proto_spec() && T1::obeys_proto_spec() && T2::obeys_proto_spec() && T3::obeys_proto_spec() && T4::obeys_proto_spec() && T5::obeys_proto_spec()
    }

    open spec fn meet_spec(self, other: Self) -> Self {
        (self.0.meet_spec(other.0), self.1.meet_spec(other.1), self.2.meet_spec(other.2), self.3.meet_spec(other.3), self.4.meet_spec(other.4), self.5.meet_spec(other.5))
    }

    open spec fn join_spec(self, other: Self) -> Self {
        (self.0.join_spec(other.0), self.1.join_spec(other.1), self.2.join_spec(other.2), self.3.join_spec(other.3), self.4.join_spec(other.4), self.5.join_spec(other.5))
    }

    fn meet(self, other: Self) -> (r: Self) {
        (self.0.meet(other.0), self.1.meet(other.1), self.2.meet(other.2), self.3.meet(other.3), self.4.meet(other.4), self.5.meet(other.5))
    }

    fn join(self, other: Self) -> (r: Self) {
        (self.0.join(other.0), self.1.join(other.1), self.2.join(other.2), self.3.join(other.3), self.4.join(other.4), self.5.join(other.5))
    }
}

impl<T0: BoundedLattice, T1: BoundedLattice, T2: BoundedLattice, T3: BoundedLattice, T4: BoundedLattice, T5: BoundedLattice> BoundedLattice for (T0, T1, T2, T3, T4, T5) where (T0, T1, T2, T3, T4, T5): Lattice {
    open spec fn bottom_spec() -> Self {
        (T0::bottom_spec(), T1::bottom_spec(), T2::bottom_spec(), T3::bottom_spec(), T4::bottom_spec(), T5::bottom_spec())
    }

    open spec fn top_spec() -> Self {
        (T0::top_spec(), T1::top_spec(), T2::top_spec(), T3::top_spec(), T4::top_spec(), T5::top_spec())
    }

    fn bottom() -> (r: Self) {
        (T0::bottom(), T1::bottom(), T2::bottom(), T3::bottom(), T4::bottom(), T5::bottom())
    }

    fn top() -> (r: Self) {
        (T0::top(), T1::top(), T2::top(), T3::top(), T4::top(), T5::top())
    }
}

/// If every component is a lattice, so is the tuple of 6.
pub proof fn law_tuple6_lattice<T0: ProtoLattice, T1: ProtoLattice, T2: ProtoLattice, T3: ProtoLattice, T4: ProtoLattice, T5: ProtoLattice>()
    requires
        is_lattice::<T0>(),
        is_lattice::<T1>(),
        is_lattice::<T2>(),
        is_lattice::<T3>(),
        is_lattice::<T4>(),
        is_lattice::<T5>(),
    ensures
        is_lattice::<(T0, T1, T2, T3, T4, T5)>(),
{
    assert forall|a: (T0, T1, T2, T3, T4, T5), b: (T0, T1, T2, T3, T4, T5)|
        #[trigger] a.meet_spec(b) == b.meet_spec(a) && a.join_spec(b) == b.join_spec(a) by {
        lemma_commutative(a.0, b.0);
        lemma_commutative(a.1, b.1);
        lemma_commutative(a.2, b.2);
        lemma_commutative(a.3, b.3);
        lemma_commutative(a.4, b.4);
        lemma_commutative(a.5, b.5);
    }
    assert forall|a: (T0, T1, T2, T3, T4, T5), b: (T0, T1, T2, T3, T4, T5), c: (T0, T1, T2, T3, T4, T5)|
        #[trigger] a.meet_spec(b).meet_spec(c) == a.meet_spec(b.meet_spec(c))
        && a.join_spec(b).join_spec(c) == a.join_spec(b.join_spec(c)) by {
        lemma_associative(a.0, b.0, c.0);
        lemma_associative(a.1, b.1, c.1);
        lemma_associative(a.2, b.2, c.2);
        lemma_associative(a.3, b.3, c.3);
        lemma_associative(a.4, b.4, c.4);
        lemma_associative(a.5, b.5, c.5);
    }
    assert forall|a: (T0, T1, T2, T3, T4, T5), b: (T0, T1, T2, T3, T4, T5)|
        #[trigger] a.meet_spec(a.join_spec(b)) == a && a.join_spec(a.meet_spec(b)) == a by {
        lemma_absorptive(a.0, b.0);
        lemma_absorptive(a.1, b.1);
        lemma_absorptive(a.2, b.2);
        lemma_absorptive(a.3, b.3);
        lemma_absorptive(a.4, b.4);
        lemma_absorptive(a.5, b.5);
    }
    reveal(commutative);
    reveal(associative);
    reveal(absorptive);
}

/// If every component is bounded, the tuple of 6 is bounded by the tuples of
/// bottoms and of tops.
pub proof fn law_tuple6_bounded<T0: BoundedLattice + ProtoLattice, T1: BoundedLattice + ProtoLattice, T2: BoundedLattice + ProtoLattice, T3: BoundedLattice + ProtoLattice, T4: BoundedLattice + ProtoLattice, T5: BoundedLattice + ProtoLattice>()
    where
        (T0, T1, T2, T3, T4, T5): BoundedLattice,
    requires
        is_bounded::<T0>(),
        is_bounded::<T1>(),
        is_bounded::<T2>(),
        is_bounded::<T3>(),
        is_bounded::<T4>(),
        is_bounded::<T5>(),
    ensures
        is_bounded::<(T0, T1, T2, T3, T4, T5)>(),
{
    assert forall|x: (T0, T1, T2, T3, T4, T5)|
        <(T0, T1, T2, T3, T4, T5)>::bottom_spec().join_spec(x) == x && #[trigger] <(T0, T1, T2, T3, T4, T5)>::top_spec().meet_spec(x)
            == x by {
        lemma_bounded::<T0>(x.0);
        lemma_bounded::<T1>(x.1);
        lemma_bounded::<T2>(x.2);
        lemma_bounded::<T3>(x.3);
        lemma_bounded::<T4>(x.4);
        lemma_bounded::<T5>(x.5);
    }
    reveal(is_bounded);
}

/// Tuples of 7 lattices meet and join component by component.
impl<T0: ProtoLattice, T1: ProtoLattice, T2: ProtoLattice, T3: ProtoLattice, T4: ProtoLattice, T5: ProtoLattice, T6: ProtoLattice> ProtoLattice for (T0, T1, T2, T3, T4, T5, T6) {
    open spec fn obeys_proto_spec() -> bool {
        T0::obeys_proto_spec() && T1::obeys_proto_spec() && T2::obeys_proto_spec() && T3::obeys_proto_spec() && T4::obeys_proto_spec() && T5::obeys_proto_spec() && T6::obeys_proto_spec()
    }

    open spec fn meet_spec(self, other: Self) -> Self {
        (self.0.meet_spec(other.0), self.1.meet_spec(other.1), self.2.meet_spec(other.2), self.3.meet_spec(other.3), self.4.meet_spec(other.4), self.5.meet_spec(other.5), self.6.meet_spec(other.6))
    }

    open spec fn join_spec(self, other: Self) -> Self {
        (self.0.join_spec(other.0), self.1.join_spec(other.1), self.2.join_spec(other.2), self.3.join_spec(other.3), self.4.join_spec(other.4), self.5.join_spec(other.5), self.6.join_spec(other.6))
    }

    fn meet(self, other: Self) -> (r: Self) {
        (self.0.meet(other.0), self.1.meet(other.1), self.2.meet(other.2), self.3.meet(other.3), self.4.meet(other.4), self.5.meet(other.5), self.6.meet(other.6))
    }

    fn join(self, other: Self) -> (r: Self) {
        (self.0.join(other.0), self.1.join(other.1), self.2.join(other.2), self.3.join(other.3), self.4.join(other.4), self.5.join(other.5), self.6.join(other.6))
    }
}

impl<T0: BoundedLattice, T1: BoundedLattice, T2: BoundedLattice, T3: BoundedLattice, T4: BoundedLattice, T5: BoundedLattice, T6: BoundedLattice> BoundedLattice for (T0, T1, T2, T3, T4, T5, T6) where (T0, T1, T2, T3, T4, T5, T6): Lattice {
    open spec fn bottom_spec() -> Self {
        (T0::bottom_spec(), T1::bottom_spec(), T2::bottom_spec(), T3::bottom_spec(), T4::bottom_spec(), T5::bottom_spec(), T6::bottom_spec())
    }

    open spec fn top_spec() -> Self {
        (T0::top_spec(), T1::top_spec(), T2::top_spec(), T3::top_spec(), T4::top_spec(), T5::top_spec(), T6::top_spec())
    }

    fn bottom() -> (r: Self) {
        (T0::bottom(), T1::bottom(), T2::bottom(), T3::bottom(), T4::bottom(), T5::bottom(), T6::bottom())
    }

    fn top() -> (r: Self) {
        (T0::top(), T1::top(), T2::top(), T3::top(), T4::top(), T5::top(), T6::top())
    }
}

/// If every component is a lattice, so is the tuple of 7.
pub proof fn law_tuple7_lattice<T0: ProtoLattice, T1: ProtoLattice, T2: ProtoLattice, T3: ProtoLattice, T4: ProtoLattice, T5: ProtoLattice, T6: ProtoLattice>()
    requires
        is_lattice::<T0>(),
        is_lattice::<T1>(),
        is_lattice::<T2>(),
        is_lattice::<T3>(),
        is_lattice::<T4>(),
        is_lattice::<T5>(),
        is_lattice::<T6>(),
    ensures
        is_lattice::<(T0, T1, T2, T3, T4, T5, T6)>(),
{
    assert forall|a: (T0, T1, T2, T3, T4, T5, T6), b: (T0, T1, T2, T3, T4, T5, T6)|
        #[trigger] a.meet_spec(b) == b.meet_spec(a) && a.join_spec(b) == b.join_spec(a) by {
        lemma_commutative(a.0, b.0);
        lemma_commutative(a.1, b.1);
        lemma_commutative(a.2, b.2);
        lemma_commutative(a.3, b.3);
        lemma_commutative(a.4, b.4);
        lemma_commutative(a.5, b.5);
        lemma_commutative(a.6, b.6);
    }
    assert forall|a: (T0, T1, T2, T3, T4, T5, T6), b: (T0, T1, T2, T3, T4, T5, T6), c: (T0, T1, T2, T3, T4, T5, T6)|
        #[trigger] a.meet_spec(b).meet_spec(c) == a.meet_spec(b.meet_spec(c))
        && a.join_spec(b).join_spec(c) == a.join_spec(b.join_spec(c)) by {
        lemma_associative(a.0, b.0, c.0);
        lemma_associative(a.1, b.1, c.1);
        lemma_associative(a.2, b.2, c.2);
        lemma_associative(a.3, b.3, c.3);
        lemma_associative(a.4, b.4, c.4);
        lemma_associative(a.5, b.5, c.5);
        lemma_associative(a.6, b.6, c.6);
    }
    assert forall|a: (T0, T1, T2, T3, T4, T5, T6), b: (T0, T1, T2, T3, T4, T5, T6)|
        #[trigger] a.meet_spec(a.join_spec(b)) == a && a.join_spec(a.meet_spec(b)) == a by {
        lemma_absorptive(a.0, b.0);
        lemma_absorptive(a.1, b.1);
        lemma_absorptive(a.2, b.2);
        lemma_absorptive(a.3, b.3);
        lemma_absorptive(a.4, b.4);
        lemma_absorptive(a.5, b.5);
        lemma_absorptive(a.6, b.6);
    }
    reveal(commutative);
    reveal(associative);
    reveal(absorptive);
}

/// If every component is bounded, the tuple of 7 is bounded by the tuples of
/// bottoms and of tops.
pub proof fn law_tuple7_bounded<T0: BoundedLattice + ProtoLattice, T1: BoundedLattice + ProtoLattice, T2: BoundedLattice + ProtoLattice, T3: BoundedLattice + ProtoLattice, T4: BoundedLattice + ProtoLattice, T5: BoundedLattice + ProtoLattice, T6: BoundedLattice + ProtoLattice>()
    where
        (T0, T1, T2, T3, T4, T5, T6): BoundedLattice,
    requires
        is_bounded::<T0>(),
        is_bounded::<T1>(),
        is_bounded::<T2>(),
        is_bounded::<T3>(),
        is_bounded::<T4>(),
        is_bounded::<T5>(),
        is_bounded::<T6>(),
    ensures
        is_bounded::<(T0, T1, T2, T3, T4, T5, T6)>(),
{
    assert forall|x: (T0, T1, T2, T3, T4, T5, T6)|
        <(T0, T1, T2, T3, T4, T5, T6)>::bottom_spec().join_spec(x) == x && #[trigger] <(T0, T1, T2, T3, T4, T5, T6)>::top_spec().meet_spec(x)
            == x by {
        lemma_bounded::<T0>(x.0);
        lemma_bounded::<T1>(x.1);
        lemma_bounded::<T2>(x.2);
        lemma_bounded::<T3>(x.3);
        lemma_bounded::<T4>(x.4);
        lemma_bounded::<T5>(x.5);
        lemma_bounded::<T6>(x.6);
    }
    reveal(is_bounded);
}

/// Tuples of 8 lattices meet and join component by component.
impl<T0: ProtoLattice, T1: ProtoLattice, T2: ProtoLattice, T3: ProtoLattice, T4: ProtoLattice, T5: ProtoLattice, T6: ProtoLattice, T7: ProtoLattice> ProtoLattice for (T0, T1, T2, T3, T4, T5, T6, T7) {
    open spec fn obeys_proto_spec() -> bool {
        T0::obeys_proto_spec() && T1::obeys_proto_spec() && T2::obeys_proto_spec() && T3::obeys_proto_spec() && T4::obeys_proto_spec() && T5::obeys_proto_spec() && T6::obeys_proto_spec() && T7::obeys_proto_spec()
    }

    open spec fn meet_spec(self, other: Self) -> Self {
        (self.0.meet_spec(other.0), self.1.meet_spec(other.1), self.2.meet_spec(other.2), self.3.meet_spec(other.3), self.4.meet_spec(other.4), self.5.meet_spec(other.5), self.6.meet_spec(other.6), self.7.meet_spec(other.7))
    }

    open spec fn join_spec(self, other: Self) -> Self {
        (self.0.join_spec(other.0), self.1.join_spec(other.1), self.2.join_spec(other.2), self.3.join_spec(other.3), self.4.join_spec(other.4), self.5.join_spec(other.5), self.6.join_spec(other.6), self.7.join_spec(other.7))
    }

    fn meet(self, other: Self) -> (r: Self) {
        (self.0.meet(other.0), self.1.meet(other.1), self.2.meet(other.2), self.3.meet(other.3), self.4.meet(other.4), self.5.meet(other.5), self.6.meet(other.6), self.7.meet(other.7))
    }

    fn join(self, other: Self) -> (r: Self) {
        (self.0.join(other.0), self.1.join(other.1), self.2.join(other.2), self.3.join(other.3), self.4.join(other.4), self.5.join(other.5), self.6.join(other.6), self.7.join(other.7))
    }
}

impl<T0: BoundedLattice, T1: BoundedLattice, T2: BoundedLattice, T3: BoundedLattice, T4: BoundedLattice, T5: BoundedLattice, T6: BoundedLattice, T7: BoundedLattice> BoundedLattice for (T0, T1, T2, T3, T4, T5, T6, T7) where (T0, T1, T2, T3, T4, T5, T6, T7): Lattice {
    open spec fn bottom_spec() -> Self {
        (T0::bottom_spec(), T1::bottom_spec(), T2::bottom_spec(), T3::bottom_spec(), T4::bottom_spec(), T5::bottom_spec(), T6::bottom_spec(), T7::bottom_spec())
    }

    open spec fn top_spec() -> Self {
        (T0::top_spec(), T1::top_spec(), T2::top_spec(), T3::top_spec(), T4::top_spec(), T5::top_spec(), T6::top_spec(), T7::top_spec())
    }

    fn bottom() -> (r: Self) {
        (T0::bottom(), T1::bottom(), T2::bottom(), T3::bottom(), T4::bottom(), T5::bottom(), T6::bottom(), T7::bottom())
    }

    fn top() -> (r: Self) {
        (T0::top(), T1::top(), T2::top(), T3::top(), T4::top(), T5::top(), T6::top(), T7::top())
    }
}

/// If every component is a lattice, so is the tuple of 8.
pub proof fn law_tuple8_lattice<T0: ProtoLattice, T1: ProtoLattice, T2: ProtoLattice, T3: ProtoLattice, T4: ProtoLattice, T5: ProtoLattice, T6: ProtoLattice, T7: ProtoLattice>()
    requires
        is_lattice::<T0>(),
        is_lattice::<T1>(),
        is_lattice::<T2>(),
        is_lattice::<T3>(),
        is_lattice::<T4>(),
        is_lattice::<T5>(),
        is_lattice::<T6>(),
        is_lattice::<T7>(),
    ensures
        is_lattice::<(T0, T1, T2, T3, T4, T5, T6, T7)>(),
{
    assert forall|a: (T0, T1, T2, T3, T4, T5, T6, T7), b: (T0, T1, T2, T3, T4, T5, T6, T7)|
        #[trigger] a.meet_spec(b) == b.meet_spec(a) && a.join_spec(b) == b.join_spec(a) by {
        lemma_commutative(a.0, b.0);
        lemma_commutative(a.1, b.1);
        lemma_commutative(a.2, b.2);
        lemma_commutative(a.3, b.3);
        lemma_commutative(a.4, b.4);
        lemma_commutative(a.5, b.5);
        lemma_commutative(a.6, b.6);
        lemma_commutative(a.7, b.7);
    }
    assert forall|a: (T0, T1, T2, T3, T4, T5, T6, T7), b: (T0, T1, T2, T3, T4, T5, T6, T7), c: (T0, T1, T2, T3, T4, T5, T6, T7)|
        #[trigger] a.meet_spec(b).meet_spec(c) == a.meet_spec(b.meet_spec(c))
        && a.join_spec(b).join_spec(c) == a.join_spec(b.join_spec(c)) by {
        lemma_associative(a.0, b.0, c.0);
        lemma_associative(a.1, b.1, c.1);
        lemma_associative(a.2, b.2, c.2);
        lemma_associative(a.3, b.3, c.3);
        lemma_associative(a.4, b.4, c.4);
        lemma_associative(a.5, b.5, c.5);
        lemma_associative(a.6, b.6, c.6);
        lemma_associative(a.7, b.7, c.7);
    }
    assert forall|a: (T0, T1, T2, T3, T4, T5, T6, T7), b: (T0, T1, T2, T3, T4, T5, T6, T7)|
        #[trigger] a.meet_spec(a.join_spec(b)) == a && a.join_spec(a.meet_spec(b)) == a by {
        lemma_absorptive(a.0, b.0);
        lemma_absorptive(a.1, b.1);
        lemma_absorptive(a.2, b.2);
        lemma_absorptive(a.3, b.3);
        lemma_absorptive(a.4, b.4);
        lemma_absorptive(a.5, b.5);
        lemma_absorptive(a.6, b.6);
        lemma_absorptive(a.7, b.7);
    }
    reveal(commutative);
    reveal(associative);
    reveal(absorptive);
}

/// If every component is bounded, the tuple of 8 is bounded by the tuples of
/// bottoms and of tops.
pub proof fn law_tuple8_bounded<T0: BoundedLattice + ProtoLattice, T1: BoundedLattice + ProtoLattice, T2: BoundedLattice + ProtoLattice, T3: BoundedLattice + ProtoLattice, T4: BoundedLattice + ProtoLattice, T5: BoundedLattice + ProtoLattice, T6: BoundedLattice + ProtoLattice, T7: BoundedLattice + ProtoLattice>()
    where
        (T0, T1, T2, T3, T4, T5, T6, T7): BoundedLattice,
    requires
        is_bounded::<T0>(),
        is_bounded::<T1>(),
        is_bounded::<T2>(),
        is_bounded::<T3>(),
        is_bounded::<T4>(),
        is_bounded::<T5>(),
        is_bounded::<T6>(),
        is_bounded::<T7>(),
    ensures
        is_bounded::<(T0, T1, T2, T3, T4, T5, T6, T7)>(),
{
    assert forall|x: (T0, T1, T2, T3, T4, T5, T6, T7)|
        <(T0, T1, T2, T3, T4, T5, T6, T7)>::bottom_spec().join_spec(x) == x && #[trigger] <(T0, T1, T2, T3, T4, T5, T6, T7)>::top_spec().meet_spec(x)
            == x by {
        lemma_bounded::<T0>(x.0);
        lemma_bounded::<T1>(x.1);
        lemma_bounded::<T2>(x.2);
        lemma_bounded::<T3>(x.3);
        lemma_bounded::<T4>(x.4);
        lemma_bounded::<T5>(x.5);
        lemma_bounded::<T6>(x.6);
        lemma_bounded::<T7>(x.7);
    }
    reveal(is_bounded);
}

/// Tuples of 9 lattices meet and join component by component.
impl<T0: ProtoLattice, T1: ProtoLattice, T2: ProtoLattice, T3: ProtoLattice, T4: ProtoLattice, T5: ProtoLattice, T6: ProtoLattice, T7: ProtoLattice, T8: ProtoLattice> ProtoLattice for (T0, T1, T2, T3, T4, T5, T6, T7, T8) {
    open spec fn obeys_proto_spec() -> bool {
        T0::obeys_proto_spec() && T1::obeys_proto_spec() && T2::obeys_proto_spec() && T3::obeys_proto_spec() && T4::obeys_proto_spec() && T5::obeys_proto_spec() && T6::obeys_proto_spec() && T7::obeys_proto_spec() && T8::obeys_proto_spec()
    }

    open spec fn meet_spec(self, other: Self) -> Self {
        (self.0.meet_spec(other.0), self.1.meet_spec(other.1), self.2.meet_spec(other.2), self.3.meet_spec(other.3), self.4.meet_spec(other.4), self.5.meet_spec(other.5), self.6.meet_spec(other.6), self.7.meet_spec(other.7), self.8.meet_spec(other.8))
    }

    open spec fn join_spec(self, other: Self) -> Self {
        (self.0.join_spec(other.0), self.1.join_spec(other.1), self.2.join_spec(other.2), self.3.join_spec(other.3), self.4.join_spec(other.4), self.5.join_spec(other.5), self.6.join_spec(other.6), self.7.join_spec(other.7), self.8.join_spec(other.8))
    }

    fn meet(self, other: Self) -> (r: Self) {
        (self.0.meet(other.0), self.1.meet(other.1), self.2.meet(other.2), self.3.meet(other.3), self.4.meet(other.4), self.5.meet(other.5), self.6.meet(other.6), self.7.meet(other.7), self.8.meet(other.8))
    }

    fn join(self, other: Self) -> (r: Self) {
        (self.0.join(other.0), self.1.join(other.1), self.2.join(other.2), self.3.join(other.3), self.4.join(other.4), self.5.join(other.5), self.6.join(other.6), self.7.join(other.7), self.8.join(other.8))
    }
}

impl<T0: BoundedLattice, T1: BoundedLattice, T2: BoundedLattice, T3: BoundedLattice, T4: BoundedLattice, T5: BoundedLattice, T6: BoundedLattice, T7: BoundedLattice, T8: BoundedLattice> BoundedLattice for (T0, T1, T2, T3, T4, T5, T6, T7, T8) where (T0, T1, T2, T3, T4, T5, T6, T7, T8): Lattice {
    open spec fn bottom_spec() -> Self {
        (T0::bottom_spec(), T1::bottom_spec(), T2::bottom_spec(), T3::bottom_spec(), T4::bottom_spec(), T5::bottom_spec(), T6::bottom_spec(), T7::bottom_spec(), T8::bottom_spec())
    }

    open spec fn top_spec() -> Self {
        (T0::top_spec(), T1::top_spec(), T2::top_spec(), T3::top_spec(), T4::top_spec(), T5::top_spec(), T6::top_spec(), T7::top_spec(), T8::top_spec())
    }

    fn bottom() -> (r: Self) {
        (T0::bottom(), T1::bottom(), T2::bottom(), T3::bottom(), T4::bottom(), T5::bottom(), T6::bottom(), T7::bottom(), T8::bottom())
    }

    fn top() -> (r: Self) {
        (T0::top(), T1::top(), T2::top(), T3::top(), T4::top(), T5::top(), T6::top(), T7::top(), T8::top())
    }
}

/// If every component is a lattice, so is the tuple of 9.
pub proof fn law_tuple9_lattice<T0: ProtoLattice, T1: ProtoLattice, T2: ProtoLattice, T3: ProtoLattice, T4: ProtoLattice, T5: ProtoLattice, T6: ProtoLattice, T7: ProtoLattice, T8: ProtoLattice>()
    requires
        is_lattice::<T0>(),
        is_lattice::<T1>(),
        is_lattice::<T2>(),
        is_lattice::<T3>(),
        is_lattice::<T4>(),
        is_lattice::<T5>(),
        is_lattice::<T6>(),
        is_lattice::<T7>(),
        is_lattice::<T8>(),
    ensures
        is_lattice::<(T0, T1, T2, T3, T4, T5, T6, T7, T8)>(),
{
    assert forall|a: (T0, T1, T2, T3, T4, T5, T6, T7, T8), b: (T0, T1, T2, T3, T4, T5, T6, T7, T8)|
        #[trigger] a.meet_spec(b) == b.meet_spec(a) && a.join_spec(b) == b.join_spec(a) by {
        lemma_commutative(a.0, b.0);
        lemma_commutative(a.1, b.1);
        lemma_commutative(a.2, b.2);
        lemma_commutative(a.3, b.3);
        lemma_commutative(a.4, b.4);
        lemma_commutative(a.5, b.5);
        lemma_commutative(a.6, b.6);
        lemma_commutative(a.7, b.7);
        lemma_commutative(a.8, b.8);
    }
    assert forall|a: (T0, T1, T2, T3, T4, T5, T6, T7, T8), b: (T0, T1, T2, T3, T4, T5, T6, T7, T8), c: (T0, T1, T2, T3, T4, T5, T6, T7, T8)|
        #[trigger] a.meet_spec(b).meet_spec(c) == a.meet_spec(b.meet_spec(c))
        && a.join_spec(b).join_spec(c) == a.join_spec(b.join_spec(c)) by {
        lemma_associative(a.0, b.0, c.0);
        lemma_associative(a.1, b.1, c.1);
        lemma_associative(a.2, b.2, c.2);
        lemma_associative(a.3, b.3, c.3);
        lemma_associative(a.4, b.4, c.4);
        lemma_associative(a.5, b.5, c.5);
        lemma_associative(a.6, b.6, c.6);
        lemma_associative(a.7, b.7, c.7);
        lemma_associative(a.8, b.8, c.8);
    }
    assert forall|a: (T0, T1, T2, T3, T4, T5, T6, T7, T8), b: (T0, T1, T2, T3, T4, T5, T6, T7, T8)|
        #[trigger] a.meet_spec(a.join_spec(b)) == a && a.join_spec(a.meet_spec(b)) == a by {
        lemma_absorptive(a.0, b.0);
        lemma_absorptive(a.1, b.1);
        lemma_absorptive(a.2, b.2);
        lemma_absorptive(a.3, b.3);
        lemma_absorptive(a.4, b.4);
        lemma_absorptive(a.5, b.5);
        lemma_absorptive(a.6, b.6);
        lemma_absorptive(a.7, b.7);
        lemma_absorptive(a.8, b.8);
    }
    reveal(commutative);
    reveal(associative);
    reveal(absorptive);
}

/// If every component is bounded, the tuple of 9 is bounded by the tuples of
/// bottoms and of tops.
pub proof fn law_tuple9_bounded<T0: BoundedLattice + ProtoLattice, T1: BoundedLattice + ProtoLattice, T2: BoundedLattice + ProtoLattice, T3: BoundedLattice + ProtoLattice, T4: BoundedLattice + ProtoLattice, T5: BoundedLattice + ProtoLattice, T6: BoundedLattice + ProtoLattice, T7: BoundedLattice + ProtoLattice, T8: BoundedLattice + ProtoLattice>()
    where
        (T0, T1, T2, T3, T4, T5, T6, T7, T8): BoundedLattice,
    requires
        is_bounded::<T0>(),
        is_bounded::<T1>(),
        is_bounded::<T2>(),
        is_bounded::<T3>(),
        is_bounded::<T4>(),
        is_bounded::<T5>(),
        is_bounded::<T6>(),
        is_bounded::<T7>(),
        is_bounded::<T8>(),
    ensures
        is_bounded::<(T0, T1, T2, T3, T4, T5, T6, T7, T8)>(),
{
    assert forall|x: (T0, T1, T2, T3, T4, T5, T6, T7, T8)|
        <(T0, T1, T2, T3, T4, T5, T6, T7, T8)>::bottom_spec().join_spec(x) == x && #[trigger] <(T0, T1, T2, T3, T4, T5, T6, T7, T8)>::top_spec().meet_spec(x)
            == x by {
        lemma_bounded::<T0>(x.0);
        lemma_bounded::<T1>(x.1);
        lemma_bounded::<T2>(x.2);
        lemma_bounded::<T3>(x.3);
        lemma_bounded::<T4>(x.4);
        lemma_bounded::<T5>(x.5);
        lemma_bounded::<T6>(x.6);
        lemma_bounded::<T7>(x.7);
        lemma_bounded::<T8>(x.8);
    }
    reveal(is_bounded);
}

/// Tuples of 10 lattices meet and join component by component.
impl<T0: ProtoLattice, T1: ProtoLattice, T2: ProtoLattice, T3: ProtoLattice, T4: ProtoLattice, T5: ProtoLattice, T6: ProtoLattice, T7: ProtoLattice, T8: ProtoLattice, T9: ProtoLattice> ProtoLattice for (T0, T1, T2, T3, T4, T5, T6, T7, T8, T9) {
    open spec fn obeys_proto_spec() -> bool {
        T0::obeys_proto_spec() && T1::obeys_proto_spec() && T2::obeys_proto_spec() && T3::obeys_proto_spec() && T4::obeys_proto_spec() && T5::obeys_proto_spec() && T6::obeys_proto_spec() && T7::obeys_proto_spec() && T8::obeys_proto_spec() && T9::obeys_proto_spec()
    }

    open spec fn meet_spec(self, other: Self) -> Self {
        (self.0.meet_spec(other.0), self.1.meet_spec(other.1), self.2.meet_spec(other.2), self.3.meet_spec(other.3), self.4.meet_spec(other.4), self.5.meet_spec(other.5), self.6.meet_spec(other.6), self.7.meet_spec(other.7), self.8.meet_spec(other.8), self.9.meet_spec(other.9))
    }

    open spec fn join_spec(self, other: Self) -> Self {
        (self.0.join_spec(other.0), self.1.join_spec(other.1), self.2.join_spec(other.2), self.3.join_spec(other.3), self.4.join_spec(other.4), self.5.join_spec(other.5), self.6.join_spec(other.6), self.7.join_spec(other.7), self.8.join_spec(other.8), self.9.join_spec(other.9))
    }

    fn meet(self, other: Self) -> (r: Self) {
        (self.0.meet(other.0), self.1.meet(other.1), self.2.meet(other.2), self.3.meet(other.3), self.4.meet(other.4), self.5.meet(other.5), self.6.meet(other.6), self.7.meet(other.7), self.8.meet(other.8), self.9.meet(other.9))
    }

    fn join(self, other: Self) -> (r: Self) {
        (self.0.join(other.0), self.1.join(other.1), self.2.join(other.2), self.3.join(other.3), self.4.join(other.4), self.5.join(other.5), self.6.join(other.6), self.7.join(other.7), self.8.join(other.8), self.9.join(other.9))
    }
}

impl<T0: BoundedLattice, T1: BoundedLattice, T2: BoundedLattice, T3: BoundedLattice, T4: BoundedLattice, T5: BoundedLattice, T6: BoundedLattice, T7: BoundedLattice, T8: BoundedLattice, T9: BoundedLattice> BoundedLattice for (T0, T1, T2, T3, T4, T5, T6, T7, T8, T9) where (T0, T1, T2, T3, T4, T5, T6, T7, T8, T9): Lattice {
    open spec fn bottom_spec() -> Self {
        (T0::bottom_spec(), T1::bottom_spec(), T2::bottom_spec(), T3::bottom_spec(), T4::bottom_spec(), T5::bottom_spec(), T6::bottom_spec(), T7::bottom_spec(), T8::bottom_spec(), T9::bottom_spec())
    }

    open spec fn top_spec() -> Self {
        (T0::top_spec(), T1::top_spec(), T2::top_spec(), T3::top_spec(), T4::top_spec(), T5::top_spec(), T6::top_spec(), T7::top_spec(), T8::top_spec(), T9::top_spec())
    }

    fn bottom() -> (r: Self) {
        (T0::bottom(), T1::bottom(), T2::bottom(), T3::bottom(), T4::bottom(), T5::bottom(), T6::bottom(), T7::bottom(), T8::bottom(), T9::bottom())
    }

    fn top() -> (r: Self) {
        (T0::top(), T1::top(), T2::top(), T3::top(), T4::top(), T5::top(), T6::top(), T7::top(), T8::top(), T9::top())
    }
}

/// If every component is a lattice, so is the tuple of 10.
pub proof fn law_tuple10_lattice<T0: ProtoLattice, T1: ProtoLattice, T2: ProtoLattice, T3: ProtoLattice, T4: ProtoLattice, T5: ProtoLattice, T6: ProtoLattice, T7: ProtoLattice, T8: ProtoLattice, T9: ProtoLattice>()
    requires
        is_lattice::<T0>(),
        is_lattice::<T1>(),
        is_lattice::<T2>(),
        is_lattice::<T3>(),
        is_lattice::<T4>(),
        is_lattice::<T5>(),
        is_lattice::<T6>(),
        is_lattice::<T7>(),
        is_lattice::<T8>(),
        is_lattice::<T9>(),
    ensures
        is_lattice::<(T0, T1, T2, T3, T4, T5, T6, T7, T8, T9)>(),
{
    assert forall|a: (T0, T1, T2, T3, T4, T5, T6, T7, T8, T9), b: (T0, T1, T2, T3, T4, T5, T6, T7, T8, T9)|
        #[trigger] a.meet_spec(b) == b.meet_spec(a) && a.join_spec(b) == b.join_spec(a) by {
        lemma_commutative(a.0, b.0);
        lemma_commutative(a.1, b.1);
        lemma_commutative(a.2, b.2);
        lemma_commutative(a.3, b.3);
        lemma_commutative(a.4, b.4);
        lemma_commutative(a.5, b.5);
        lemma_commutative(a.6, b.6);
        lemma_commutative(a.7, b.7);
        lemma_commutative(a.8, b.8);
        lemma_commutative(a.9, b.9);
    }
    assert forall|a: (T0, T1, T2, T3, T4, T5, T6, T7, T8, T9), b: (T0, T1, T2, T3, T4, T5, T6, T7, T8, T9), c: (T0, T1, T2, T3, T4, T5, T6, T7, T8, T9)|
        #[trigger] a.meet_spec(b).meet_spec(c) == a.meet_spec(b.meet_spec(c))
        && a.join_spec(b).join_spec(c) == a.join_spec(b.join_spec(c)) by {
        lemma_associative(a.0, b.0, c.0);
        lemma_associative(a.1, b.1, c.1);
        lemma_associative(a.2, b.2, c.2);
        lemma_associative(a.3, b.3, c.3);
        lemma_associative(a.4, b.4, c.4);
        lemma_associative(a.5, b.5, c.5);
        lemma_associative(a.6, b.6, c.6);
        lemma_associative(a.7, b.7, c.7);
        lemma_associative(a.8, b.8, c.8);
        lemma_associative(a.9, b.9, c.9);
    }
    assert forall|a: (T0, T1, T2, T3, T4, T5, T6, T7, T8, T9), b: (T0, T1, T2, T3, T4, T5, T6, T7, T8, T9)|
        #[trigger] a.meet_spec(a.join_spec(b)) == a && a.join_spec(a.meet_spec(b)) == a by {
        lemma_absorptive(a.0, b.0);
        lemma_absorptive(a.1, b.1);
        lemma_absorptive(a.2, b.2);
        lemma_absorptive(a.3, b.3);
        lemma_absorptive(a.4, b.4);
        lemma_absorptive(a.5, b.5);
        lemma_absorptive(a.6, b.6);
        lemma_absorptive(a.7, b.7);
        lemma_absorptive(a.8, b.8);
        lemma_absorptive(a.9, b.9);
    }
    reveal(commutative);
    reveal(associative);
    reveal(absorptive);
}

/// If every component is bounded, the tuple of 10 is bounded by the tuples of
/// bottoms and of tops.
pub proof fn law_tuple10_bounded<T0: BoundedLattice + ProtoLattice, T1: BoundedLattice + ProtoLattice, T2: BoundedLattice + ProtoLattice, T3: BoundedLattice + ProtoLattice, T4: BoundedLattice + ProtoLattice, T5: BoundedLattice + ProtoLattice, T6: BoundedLattice + ProtoLattice, T7: BoundedLattice + ProtoLattice, T8: BoundedLattice + ProtoLattice, T9: BoundedLattice + ProtoLattice>()
    where
        (T0, T1, T2, T3, T4, T5, T6, T7, T8, T9): BoundedLattice,
    requires
        is_bounded::<T0>(),
        is_bounded::<T1>(),
        is_bounded::<T2>(),
        is_bounded::<T3>(),
        is_bounded::<T4>(),
        is_bounded::<T5>(),
        is_bounded::<T6>(),
        is_bounded::<T7>(),
        is_bounded::<T8>(),
        is_bounded::<T9>(),
    ensures
        is_bounded::<(T0, T1, T2, T3, T4, T5, T6, T7, T8, T9)>(),
{
    assert forall|x: (T0, T1, T2, T3, T4, T5, T6, T7, T8, T9)|
        <(T0, T1, T2, T3, T4, T5, T6, T7, T8, T9)>::bottom_spec().join_spec(x) == x && #[trigger] <(T0, T1, T2, T3, T4, T5, T6, T7, T8, T9)>::top_spec().meet_spec(x)
            == x by {
        lemma_bounded::<T0>(x.0);
        lemma_bounded::<T1>(x.1);
        lemma_bounded::<T2>(x.2);
        lemma_bounded::<T3>(x.3);
        lemma_bounded::<T4>(x.4);
        lemma_bounded::<T5>(x.5);
        lemma_bounded::<T6>(x.6);
        lemma_bounded::<T7>(x.7);
        lemma_bounded::<T8>(x.8);
        lemma_bounded::<T9>(x.9);
    }
    reveal(is_bounded);
}

/// Tuples of 11 lattices meet and join component by component.
impl<T0: ProtoLattice, T1: ProtoLattice, T2: ProtoLattice, T3: ProtoLattice, T4: ProtoLattice, T5: ProtoLattice, T6: ProtoLattice, T7: ProtoLattice, T8: ProtoLattice, T9: ProtoLattice, T10: ProtoLattice> ProtoLattice for (T0, T1, T2, T3, T4, T5, T6, T7, T8, T9, T10) {
    open spec fn obeys_proto_spec() -> bool {
        T0::obeys_proto_spec() && T1::obeys_proto_spec() && T2::obeys_proto_spec() && T3::obeys_proto_spec() && T4::obeys_proto_spec() && T5::obeys_proto_spec() && T6::obeys_proto_spec() && T7::obeys_proto_spec() && T8::obeys_proto_spec() && T9::obeys_proto_spec() && T10::obeys_proto_spec()
    }

    open spec fn meet_spec(self, other: Self) -> Self {
        (self.0.meet_spec(other.0), self.1.meet_spec(other.1), self.2.meet_spec(other.2), self.3.meet_spec(other.3), self.4.meet_spec(other.4), self.5.meet_spec(other.5), self.6.meet_spec(other.6), self.7.meet_spec(other.7), self.8.meet_spec(other.8), self.9.meet_spec(other.9), self.10.meet_spec(other.10))
    }

    open spec fn join_spec(self, other: Self) -> Self {
        (self.0.join_spec(other.0), self.1.join_spec(other.1), self.2.join_spec(other.2), self.3.join_spec(other.3), self.4.join_spec(other.4), self.5.join_spec(other.5), self.6.join_spec(other.6), self.7.join_spec(other.7), self.8.join_spec(other.8), self.9.join_spec(other.9), self.10.join_spec(other.10))
    }

    fn meet(self, other: Self) -> (r: Self) {
        (self.0.meet(other.0), self.1.meet(other.1), self.2.meet(other.2), self.3.meet(other.3), self.4.meet(other.4), self.5.meet(other.5), self.6.meet(other.6), self.7.meet(other.7), self.8.meet(other.8), self.9.meet(other.9), self.10.meet(other.10))
    }

    fn join(self, other: Self) -> (r: Self) {
        (self.0.join(other.0), self.1.join(other.1), self.2.join(other.2), self.3.join(other.3), self.4.join(other.4), self.5.join(other.5), self.6.join(other.6), self.7.join(other.7), self.8.join(other.8), self.9.join(other.9), self.10.join(other.10))
    }
}

impl<T0: BoundedLattice, T1: BoundedLattice, T2: BoundedLattice, T3: BoundedLattice, T4: BoundedLattice, T5: BoundedLattice, T6: BoundedLattice, T7: BoundedLattice, T8: BoundedLattice, T9: BoundedLattice, T10: BoundedLattice> BoundedLattice for (T0, T1, T2, T3, T4, T5, T6, T7, T8, T9, T10) where (T0, T1, T2, T3, T4, T5, T6, T7, T8, T9, T10): Lattice {
    open spec fn bottom_spec() -> Self {
        (T0::bottom_spec(), T1::bottom_spec(), T2::bottom_spec(), T3::bottom_spec(), T4::bottom_spec(), T5::bottom_spec(), T6::bottom_spec(), T7::bottom_spec(), T8::bottom_spec(), T9::bottom_spec(), T10::bottom_spec())
    }

    open spec fn top_spec() -> Self {
        (T0::top_spec(), T1::top_spec(), T2::top_spec(), T3::top_spec(), T4::top_spec(), T5::top_spec(), T6::top_spec(), T7::top_spec(), T8::top_spec(), T9::top_spec(), T10::top_spec())
    }

    fn bottom() -> (r: Self) {
        (T0::bottom(), T1::bottom(), T2::bottom(), T3::bottom(), T4::bottom(), T5::bottom(), T6::bottom(), T7::bottom(), T8::bottom(), T9::bottom(), T10::bottom())
    }

    fn top() -> (r: Self) {
        (T0::top(), T1::top(), T2::top(), T3::top(), T4::top(), T5::top(), T6::top(), T7::top(), T8::top(), T9::top(), T10::top())
    }
}

/// If every component is a lattice, so is the tuple of 11.
pub proof fn law_tuple11_lattice<T0: ProtoLattice, T1: ProtoLattice, T2: ProtoLattice, T3: ProtoLattice, T4: ProtoLattice, T5: ProtoLattice, T6: ProtoLattice, T7: ProtoLattice, T8: ProtoLattice, T9: ProtoLattice, T10: ProtoLattice>()
    requires
        is_lattice::<T0>(),
        is_lattice::<T1>(),
        is_lattice::<T2>(),
        is_lattice::<T3>(),
        is_lattice::<T4>(),
        is_lattice::<T5>(),
        is_lattice::<T6>(),
        is_lattice::<T7>(),
        is_lattice::<T8>(),
        is_lattice::<T9>(),
        is_lattice::<T10>(),
    ensures
        is_lattice::<(T0, T1, T2, T3, T4, T5, T6, T7, T8, T9, T10)>(),
{
    assert forall|a: (T0, T1, T2, T3, T4, T5, T6, T7, T8, T9, T10), b: (T0, T1, T2, T3, T4, T5, T6, T7, T8, T9, T10)|
        #[trigger] a.meet_spec(b) == b.meet_spec(a) && a.join_spec(b) == b.join_spec(a) by {
        lemma_commutative(a.0, b.0);
        lemma_commutative(a.1, b.1);
        lemma_commutative(a.2, b.2);
        lemma_commutative(a.3, b.3);
        lemma_commutative(a.4, b.4);
        lemma_commutative(a.5, b.5);
        lemma_commutative(a.6, b.6);
        lemma_commutative(a.7, b.7);
        lemma_commutative(a.8, b.8);
        lemma_commutative(a.9, b.9);
        lemma_commutative(a.10, b.10);
    }
    assert forall|a: (T0, T1, T2, T3, T4, T5, T6, T7, T8, T9, T10), b: (T0, T1, T2, T3, T4, T5, T6, T7, T8, T9, T10), c: (T0, T1, T2, T3, T4, T5, T6, T7, T8, T9, T10)|
        #[trigger] a.meet_spec(b).meet_spec(c) == a.meet_spec(b.meet_spec(c))
        && a.join_spec(b).join_spec(c) == a.join_spec(b.join_spec(c)) by {
        lemma_associative(a.0, b.0, c.0);
        lemma_associative(a.1, b.1, c.1);
        lemma_associative(a.2, b.2, c.2);
        lemma_associative(a.3, b.3, c.3);
        lemma_associative(a.4, b.4, c.4);
        lemma_associative(a.5, b.5, c.5);
        lemma_associative(a.6, b.6, c.6);
        lemma_associative(a.7, b.7, c.7);
        lemma_associative(a.8, b.8, c.8);
        lemma_associative(a.9, b.9, c.9);
        lemma_associative(a.10, b.10, c.10);
    }
    assert forall|a: (T0, T1, T2, T3, T4, T5, T6, T7, T8, T9, T10), b: (T0, T1, T2, T3, T4, T5, T6, T7, T8, T9, T10)|
        #[trigger] a.meet_spec(a.join_spec(b)) == a && a.join_spec(a.meet_spec(b)) == a by {
        lemma_absorptive(a.0, b.0);
        lemma_absorptive(a.1, b.1);
        lemma_absorptive(a.2, b.2);
        lemma_absorptive(a.3, b.3);
        lemma_absorptive(a.4, b.4);
        lemma_absorptive(a.5, b.5);
        lemma_absorptive(a.6, b.6);
        lemma_absorptive(a.7, b.7);
        lemma_absorptive(a.8, b.8);
        lemma_absorptive(a.9, b.9);
        lemma_absorptive(a.10, b.10);
    }
    reveal(commutative);
    reveal(associative);
    reveal(absorptive);
}

/// If every component is bounded, the tuple of 11 is bounded by the tuples of
/// bottoms and of tops.
pub proof fn law_tuple11_bounded<T0: BoundedLattice + ProtoLattice, T1: BoundedLattice + ProtoLattice, T2: BoundedLattice + ProtoLattice, T3: BoundedLattice + ProtoLattice, T4: BoundedLattice + ProtoLattice, T5: BoundedLattice + ProtoLattice, T6: BoundedLattice + ProtoLattice, T7: BoundedLattice + ProtoLattice, T8: BoundedLattice + ProtoLattice, T9: BoundedLattice + ProtoLattice, T10: BoundedLattice + ProtoLattice>()
    where
        (T0, T1, T2, T3, T4, T5, T6, T7, T8, T9, T10): BoundedLattice,
    requires
        is_bounded::<T0>(),
        is_bounded::<T1>(),
        is_bounded::<T2>(),
        is_bounded::<T3>(),
        is_bounded::<T4>(),
        is_bounded::<T5>(),
        is_bounded::<T6>(),
        is_bounded::<T7>(),
        is_bounded::<T8>(),
        is_bounded::<T9>(),
        is_bounded::<T10>(),
    ensures
        is_bounded::<(T0, T1, T2, T3, T4, T5, T6, T7, T8, T9, T10)>(),
{
    assert forall|x: (T0, T1, T2, T3, T4, T5, T6, T7, T8, T9, T10)|
        <(T0, T1, T2, T3, T4, T5, T6, T7, T8, T9, T10)>::bottom_spec().join_spec(x) == x && #[trigger] <(T0, T1, T2, T3, T4, T5, T6, T7, T8, T9, T10)>::top_spec().meet_spec(x)
            == x by {
        lemma_bounded::<T0>(x.0);
        lemma_bounded::<T1>(x.1);
        lemma_bounded::<T2>(x.2);
        lemma_bounded::<T3>(x.3);
        lemma_bounded::<T4>(x.4);
        lemma_bounded::<T5>(x.5);
        lemma_bounded::<T6>(x.6);
        lemma_bounded::<T7>(x.7);
        lemma_bounded::<T8>(x.8);
        lemma_bounded::<T9>(x.9);
        lemma_bounded::<T10>(x.10);
    }
    reveal(is_bounded);
}

/// The meet of two tuples of 1 holds in each place the meet of the components
/// in that place, and likewise the join.
pub proof fn law_tuple1_componentwise<T0: ProtoLattice>(a: (T0,), b: (T0,))
    ensures
        a.meet_spec(b).0 == a.0.meet_spec(b.0),
        a.join_spec(b).0 == a.0.join_spec(b.0),
{
}

/// The bottom of a tuple of 1 holds in each place the bottom of that component,
/// and the top the top of that component.
pub proof fn law_tuple1_bounds_componentwise<T0: BoundedLattice>()
    where
        (T0,): BoundedLattice,
    ensures
        <(T0,)>::bottom_spec().0 == T0::bottom_spec(),
        <(T0,)>::top_spec().0 == T0::top_spec(),
{
}

/// The meet of two tuples of 2 holds in each place the meet of the components
/// in that place, and likewise the join.
pub proof fn law_tuple2_componentwise<T0: ProtoLattice, T1: ProtoLattice>(a: (T0, T1), b: (T0, T1))
    ensures
        a.meet_spec(b).0 == a.0.meet_spec(b.0),
        a.join_spec(b).0 == a.0.join_spec(b.0),
        a.meet_spec(b).1 == a.1.meet_spec(b.1),
        a.join_spec(b).1 == a.1.join_spec(b.1),
{
}

/// The bottom of a tuple of 2 holds in each place the bottom of that component,
/// and the top the top of that component.
pub proof fn law_tuple2_bounds_componentwise<T0: BoundedLattice, T1: BoundedLattice>()
    where
        (T0, T1): BoundedLattice,
    ensures
        <(T0, T1)>::bottom_spec().0 == T0::bottom_spec(),
        <(T0, T1)>::top_spec().0 == T0::top_spec(),
        <(T0, T1)>::bottom_spec().1 == T1::bottom_spec(),
        <(T0, T1)>::top_spec().1 == T1::top_spec(),
{
}

/// The meet of two tuples of 3 holds in each place the meet of the components
/// in that place, and likewise the join.
pub proof fn law_tuple3_componentwise<T0: ProtoLattice, T1: ProtoLattice, T2: ProtoLattice>(a: (T0, T1, T2), b: (T0, T1, T2))
    ensures
        a.meet_spec(b).0 == a.0.meet_spec(b.0),
        a.join_spec(b).0 == a.0.join_spec(b.0),
        a.meet_spec(b).1 == a.1.meet_spec(b.1),
        a.join_spec(b).1 == a.1.join_spec(b.1),
        a.meet_spec(b).2 == a.2.meet_spec(b.2),
        a.join_spec(b).2 == a.2.join_spec(b.2),
{
}

/// The bottom of a tuple of 3 holds in each place the bottom of that component,
/// and the top the top of that component.
pub proof fn law_tuple3_bounds_componentwise<T0: BoundedLattice, T1: BoundedLattice, T2: BoundedLattice>()
    where
        (T0, T1, T2): BoundedLattice,
    ensures
        <(T0, T1, T2)>::bottom_spec().0 == T0::bottom_spec(),
        <(T0, T1, T2)>::top_spec().0 == T0::top_spec(),
        <(T0, T1, T2)>::bottom_spec().1 == T1::bottom_spec(),
        <(T0, T1, T2)>::top_spec().1 == T1::top_spec(),
        <(T0, T1, T2)>::bottom_spec().2 == T2::bottom_spec(),
        <(T0, T1, T2)>::top_spec().2 == T2::top_spec(),
{
}

/// The meet of two tuples of 4 holds in each place the meet of the components
/// in that place, and likewise the join.
pub proof fn law_tuple4_componentwise<T0: ProtoLattice, T1: ProtoLattice, T2: ProtoLattice, T3: ProtoLattice>(a: (T0, T1, T2, T3), b: (T0, T1, T2, T3))
    ensures
        a.meet_spec(b).0 == a.0.meet_spec(b.0),
        a.join_spec(b).0 == a.0.join_spec(b.0),
        a.meet_spec(b).1 == a.1.meet_spec(b.1),
        a.join_spec(b).1 == a.1.join_spec(b.1),
        a.meet_spec(b).2 == a.2.meet_spec(b.2),
        a.join_spec(b).2 == a.2.join_spec(b.2),
        a.meet_spec(b).3 == a.3.meet_spec(b.3),
        a.join_spec(b).3 == a.3.join_spec(b.3),
{
}

/// The bottom of a tuple of 4 holds in each place the bottom of that component,
/// and the top the top of that component.
pub proof fn law_tuple4_bounds_componentwise<T0: BoundedLattice, T1: BoundedLattice, T2: BoundedLattice, T3: BoundedLattice>()
    where
        (T0, T1, T2, T3): BoundedLattice,
    ensures
        <(T0, T1, T2, T3)>::bottom_spec().0 == T0::bottom_spec(),
        <(T0, T1, T2, T3)>::top_spec().0 == T0::top_spec(),
        <(T0, T1, T2, T3)>::bottom_spec().1 == T1::bottom_spec(),
        <(T0, T1, T2, T3)>::top_spec().1 == T1::top_spec(),
        <(T0, T1, T2, T3)>::bottom_spec().2 == T2::bottom_spec(),
        <(T0, T1, T2, T3)>::top_spec().2 == T2::top_spec(),
        <(T0, T1, T2, T3)>::bottom_spec().3 == T3::bottom_spec(),
        <(T0, T1, T2, T3)>::top_spec().3 == T3::top_spec(),
{
}

/// The meet of two tuples of 5 holds in each place the meet of the components
/// in that place, and likewise the join.
pub proof fn law_tuple5_componentwise<T0: ProtoLattice, T1: ProtoLattice, T2: ProtoLattice, T3: ProtoLattice, T4: ProtoLattice>(a: (T0, T1, T2, T3, T4), b: (T0, T1, T2, T3, T4))
    ensures
        a.meet_spec(b).0 == a.0.meet_spec(b.0),
        a.join_spec(b).0 == a.0.join_spec(b.0),
        a.meet_spec(b).1 == a.1.meet_spec(b.1),
        a.join_spec(b).1 == a.1.join_spec(b.1),
        a.meet_spec(b).2 == a.2.meet_spec(b.2),
        a.join_spec(b).2 == a.2.join_spec(b.2),
        a.meet_spec(b).3 == a.3.meet_spec(b.3),
        a.join_spec(b).3 == a.3.join_spec(b.3),
        a.meet_spec(b).4 == a.4.meet_spec(b.4),
        a.join_spec(b).4 == a.4.join_spec(b.4),
{
}

/// The bottom of a tuple of 5 holds in each place the bottom of that component,
/// and the top the top of that component.
pub proof fn law_tuple5_bounds_componentwise<T0: BoundedLattice, T1: BoundedLattice, T2: BoundedLattice, T3: BoundedLattice, T4: BoundedLattice>()
    where
        (T0, T1, T2, T3, T4): BoundedLattice,
    ensures
        <(T0, T1, T2, T3, T4)>::bottom_spec().0 == T0::bottom_spec(),
        <(T0, T1, T2, T3, T4)>::top_spec().0 == T0::top_spec(),
        <(T0, T1, T2, T3, T4)>::bottom_spec().1 == T1::bottom_spec(),
        <(T0, T1, T2, T3, T4)>::top_spec().1 == T1::top_spec(),
        <(T0, T1, T2, T3, T4)>::bottom_spec().2 == T2::bottom_spec(),
        <(T0, T1, T2, T3, T4)>::top_spec().2 == T2::top_spec(),
        <(T0, T1, T2, T3, T4)>::bottom_spec().3 == T3::bottom_spec(),
        <(T0, T1, T2, T3, T4)>::top_spec().3 == T3::top_spec(),
        <(T0, T1, T2, T3, T4)>::bottom_spec().4 == T4::bottom_spec(),
        <(T0, T1, T2, T3, T4)>::top_spec().4 == T4::top_spec(),
{
}

/// The meet of two tuples of 6 holds in each place the meet of the components
/// in that place, and likewise the join.
pub proof fn law_tuple6_componentwise<T0: ProtoLattice, T1: ProtoLattice, T2: ProtoLattice, T3: ProtoLattice, T4: ProtoLattice, T5: ProtoLattice>(a: (T0, T1, T2, T3, T4, T5), b: (T0, T1, T2, T3, T4, T5))
    ensures
        a.meet_spec(b).0 == a.0.meet_spec(b.0),
        a.join_spec(b).0 == a.0.join_spec(b.0),
        a.meet_spec(b).1 == a.1.meet_spec(b.1),
        a.join_spec(b).1 == a.1.join_spec(b.1),
        a.meet_spec(b).2 == a.2.meet_spec(b.2),
        a.join_spec(b).2 == a.2.join_spec(b.2),
        a.meet_spec(b).3 == a.3.meet_spec(b.3),
        a.join_spec(b).3 == a.3.join_spec(b.3),
        a.meet_spec(b).4 == a.4.meet_spec(b.4),
        a.join_spec(b).4 == a.4.join_spec(b.4),
        a.meet_spec(b).5 == a.5.meet_spec(b.5),
        a.join_spec(b).5 == a.5.join_spec(b.5),
{
}

/// The bottom of a tuple of 6 holds in each place the bottom of that component,
/// and the top the top of that component.
pub proof fn law_tuple6_bounds_componentwise<T0: BoundedLattice, T1: BoundedLattice, T2: BoundedLattice, T3: BoundedLattice, T4: BoundedLattice, T5: BoundedLattice>()
    where
        (T0, T1, T2, T3, T4, T5): BoundedLattice,
    ensures
        <(T0, T1, T2, T3, T4, T5)>::bottom_spec().0 == T0::bottom_spec(),
        <(T0, T1, T2, T3, T4, T5)>::top_spec().0 == T0::top_spec(),
        <(T0, T1, T2, T3, T4, T5)>::bottom_spec().1 == T1::bottom_spec(),
        <(T0, T1, T2, T3, T4, T5)>::top_spec().1 == T1::top_spec(),
        <(T0, T1, T2, T3, T4, T5)>::bottom_spec().2 == T2::bottom_spec(),
        <(T0, T1, T2, T3, T4, T5)>::top_spec().2 == T2::top_spec(),
        <(T0, T1, T2, T3, T4, T5)>::bottom_spec().3 == T3::bottom_spec(),
        <(T0, T1, T2, T3, T4, T5)>::top_spec().3 == T3::top_spec(),
        <(T0, T1, T2, T3, T4, T5)>::bottom_spec().4 == T4::bottom_spec(),
        <(T0, T1, T2, T3, T4, T5)>::top_spec().4 == T4::top_spec(),
        <(T0, T1, T2, T3, T4, T5)>::bottom_spec().5 == T5::bottom_spec(),
        <(T0, T1, T2, T3, T4, T5)>::top_spec().5 == T5::top_spec(),
{
}

/// The meet of two tuples of 7 holds in each place the meet of the components
/// in that place, and likewise the join.
pub proof fn law_tuple7_componentwise<T0: ProtoLattice, T1: ProtoLattice, T2: ProtoLattice, T3: ProtoLattice, T4: ProtoLattice, T5: ProtoLattice, T6: ProtoLattice>(a: (T0, T1, T2, T3, T4, T5, T6), b: (T0, T1, T2, T3, T4, T5, T6))
    ensures
        a.meet_spec(b).0 == a.0.meet_spec(b.0),
        a.join_spec(b).0 == a.0.join_spec(b.0),
        a.meet_spec(b).1 == a.1.meet_spec(b.1),
        a.join_spec(b).1 == a.1.join_spec(b.1),
        a.meet_spec(b).2 == a.2.meet_spec(b.2),
        a.join_spec(b).2 == a.2.join_spec(b.2),
        a.meet_spec(b).3 == a.3.meet_spec(b.3),
        a.join_spec(b).3 == a.3.join_spec(b.3),
        a.meet_spec(b).4 == a.4.meet_spec(b.4),
        a.join_spec(b).4 == a.4.join_spec(b.4),
        a.meet_spec(b).5 == a.5.meet_spec(b.5),
        a.join_spec(b).5 == a.5.join_spec(b.5),
        a.meet_spec(b).6 == a.6.meet_spec(b.6),
        a.join_spec(b).6 == a.6.join_spec(b.6),
{
}

/// The bottom of a tuple of 7 holds in each place the bottom of that component,
/// and the top the top of that component.
pub proof fn law_tuple7_bounds_componentwise<T0: BoundedLattice, T1: BoundedLattice, T2: BoundedLattice, T3: BoundedLattice, T4: BoundedLattice, T5: BoundedLattice, T6: BoundedLattice>()
    where
        (T0, T1, T2, T3, T4, T5, T6): BoundedLattice,
    ensures
        <(T0, T1, T2, T3, T4, T5, T6)>::bottom_spec().0 == T0::bottom_spec(),
        <(T0, T1, T2, T3, T4, T5, T6)>::top_spec().0 == T0::top_spec(),
        <(T0, T1, T2, T3, T4, T5, T6)>::bottom_spec().1 == T1::bottom_spec(),
        <(T0, T1, T2, T3, T4, T5, T6)>::top_spec().1 == T1::top_spec(),
        <(T0, T1, T2, T3, T4, T5, T6)>::bottom_spec().2 == T2::bottom_spec(),
        <(T0, T1, T2, T3, T4, T5, T6)>::top_spec().2 == T2::top_spec(),
        <(T0, T1, T2, T3, T4, T5, T6)>::bottom_spec().3 == T3::bottom_spec(),
        <(T0, T1, T2, T3, T4, T5, T6)>::top_spec().3 == T3::top_spec(),
        <(T0, T1, T2, T3, T4, T5, T6)>::bottom_spec().4 == T4::bottom_spec(),
        <(T0, T1, T2, T3, T4, T5, T6)>::top_spec().4 == T4::top_spec(),
        <(T0, T1, T2, T3, T4, T5, T6)>::bottom_spec().5 == T5::bottom_spec(),
        <(T0, T1, T2, T3, T4, T5, T6)>::top_spec().5 == T5::top_spec(),
        <(T0, T1, T2, T3, T4, T5, T6)>::bottom_spec().6 == T6::bottom_spec(),
        <(T0, T1, T2, T3, T4, T5, T6)>::top_spec().6 == T6::top_spec(),
{
}

/// The meet of two tuples of 8 holds in each place the meet of the components
/// in that place, and likewise the join.
pub proof fn law_tuple8_componentwise<T0: ProtoLattice, T1: ProtoLattice, T2: ProtoLattice, T3: ProtoLattice, T4: ProtoLattice, T5: ProtoLattice, T6: ProtoLattice, T7: ProtoLattice>(a: (T0, T1, T2, T3, T4, T5, T6, T7), b: (T0, T1, T2, T3, T4, T5, T6, T7))
    ensures
        a.meet_spec(b).0 == a.0.meet_spec(b.0),
        a.join_spec(b).0 == a.0.join_spec(b.0),
        a.meet_spec(b).1 == a.1.meet_spec(b.1),
        a.join_spec(b).1 == a.1.join_spec(b.1),
        a.meet_spec(b).2 == a.2.meet_spec(b.2),
        a.join_spec(b).2 == a.2.join_spec(b.2),
        a.meet_spec(b).3 == a.3.meet_spec(b.3),
        a.join_spec(b).3 == a.3.join_spec(b.3),
        a.meet_spec(b).4 == a.4.meet_spec(b.4),
        a.join_spec(b).4 == a.4.join_spec(b.4),
        a.meet_spec(b).5 == a.5.meet_spec(b.5),
        a.join_spec(b).5 == a.5.join_spec(b.5),
        a.meet_spec(b).6 == a.6.meet_spec(b.6),
        a.join_spec(b).6 == a.6.join_spec(b.6),
        a.meet_spec(b).7 == a.7.meet_spec(b.7),
        a.join_spec(b).7 == a.7.join_spec(b.7),
{
}

/// The bottom of a tuple of 8 holds in each place the bottom of that component,
/// and the top the top of that component.
pub proof fn law_tuple8_bounds_componentwise<T0: BoundedLattice, T1: BoundedLattice, T2: BoundedLattice, T3: BoundedLattice, T4: BoundedLattice, T5: BoundedLattice, T6: BoundedLattice, T7: BoundedLattice>()
    where
        (T0, T1, T2, T3, T4, T5, T6, T7): BoundedLattice,
    ensures
        <(T0, T1, T2, T3, T4, T5, T6, T7)>::bottom_spec().0 == T0::bottom_spec(),
        <(T0, T1, T2, T3, T4, T5, T6, T7)>::top_spec().0 == T0::top_spec(),
        <(T0, T1, T2, T3, T4, T5, T6, T7)>::bottom_spec().1 == T1::bottom_spec(),
        <(T0, T1, T2, T3, T4, T5, T6, T7)>::top_spec().1 == T1::top_spec(),
        <(T0, T1, T2, T3, T4, T5, T6, T7)>::bottom_spec().2 == T2::bottom_spec(),
        <(T0, T1, T2, T3, T4, T5, T6, T7)>::top_spec().2 == T2::top_spec(),
        <(T0, T1, T2, T3, T4, T5, T6, T7)>::bottom_spec().3 == T3::bottom_spec(),
        <(T0, T1, T2, T3, T4, T5, T6, T7)>::top_spec().3 == T3::top_spec(),
        <(T0, T1, T2, T3, T4, T5, T6, T7)>::bottom_spec().4 == T4::bottom_spec(),
        <(T0, T1, T2, T3, T4, T5, T6, T7)>::top_spec().4 == T4::top_spec(),
        <(T0, T1, T2, T3, T4, T5, T6, T7)>::bottom_spec().5 == T5::bottom_spec(),
        <(T0, T1, T2, T3, T4, T5, T6, T7)>::top_spec().5 == T5::top_spec(),
        <(T0, T1, T2, T3, T4, T5, T6, T7)>::bottom_spec().6 == T6::bottom_spec(),
        <(T0, T1, T2, T3, T4, T5, T6, T7)>::top_spec().6 == T6::top_spec(),
        <(T0, T1, T2, T3, T4, T5, T6, T7)>::bottom_spec().7 == T7::bottom_spec(),
        <(T0, T1, T2, T3, T4, T5, T6, T7)>::top_spec().7 == T7::top_spec(),
{
}

/// The meet of two tuples of 9 holds in each place the meet of the components
/// in that place, and likewise the join.
pub proof fn law_tuple9_componentwise<T0: ProtoLattice, T1: ProtoLattice, T2: ProtoLattice, T3: ProtoLattice, T4: ProtoLattice, T5: ProtoLattice, T6: ProtoLattice, T7: ProtoLattice, T8: ProtoLattice>(a: (T0, T1, T2, T3, T4, T5, T6, T7, T8), b: (T0, T1, T2, T3, T4, T5, T6, T7, T8))
    ensures
        a.meet_spec(b).0 == a.0.meet_spec(b.0),
        a.join_spec(b).0 == a.0.join_spec(b.0),
        a.meet_spec(b).1 == a.1.meet_spec(b.1),
        a.join_spec(b).1 == a.1.join_spec(b.1),
        a.meet_spec(b).2 == a.2.meet_spec(b.2),
        a.join_spec(b).2 == a.2.join_spec(b.2),
        a.meet_spec(b).3 == a.3.meet_spec(b.3),
        a.join_spec(b).3 == a.3.join_spec(b.3),
        a.meet_spec(b).4 == a.4.meet_spec(b.4),
        a.join_spec(b).4 == a.4.join_spec(b.4),
        a.meet_spec(b).5 == a.5.meet_spec(b.5),
        a.join_spec(b).5 == a.5.join_spec(b.5),
        a.meet_spec(b).6 == a.6.meet_spec(b.6),
        a.join_spec(b).6 == a.6.join_spec(b.6),
        a.meet_spec(b).7 == a.7.meet_spec(b.7),
        a.join_spec(b).7 == a.7.join_spec(b.7),
        a.meet_spec(b).8 == a.8.meet_spec(b.8),
        a.join_spec(b).8 == a.8.join_spec(b.8),
{
}

/// The bottom of a tuple of 9 holds in each place the bottom of that component,
/// and the top the top of that component.
pub proof fn law_tuple9_bounds_componentwise<T0: BoundedLattice, T1: BoundedLattice, T2: BoundedLattice, T3: BoundedLattice, T4: BoundedLattice, T5: BoundedLattice, T6: BoundedLattice, T7: BoundedLattice, T8: BoundedLattice>()
    where
        (T0, T1, T2, T3, T4, T5, T6, T7, T8): BoundedLattice,
    ensures
        <(T0, T1, T2, T3, T4, T5, T6, T7, T8)>::bottom_spec().0 == T0::bottom_spec(),
        <(T0, T1, T2, T3, T4, T5, T6, T7, T8)>::top_spec().0 == T0::top_spec(),
        <(T0, T1, T2, T3, T4, T5, T6, T7, T8)>::bottom_spec().1 == T1::bottom_spec(),
        <(T0, T1, T2, T3, T4, T5, T6, T7, T8)>::top_spec().1 == T1::top_spec(),
        <(T0, T1, T2, T3, T4, T5, T6, T7, T8)>::bottom_spec().2 == T2::bottom_spec(),
        <(T0, T1, T2, T3, T4, T5, T6, T7, T8)>::top_spec().2 == T2::top_spec(),
        <(T0, T1, T2, T3, T4, T5, T6, T7, T8)>::bottom_spec().3 == T3::bottom_spec(),
        <(T0, T1, T2, T3, T4, T5, T6, T7, T8)>::top_spec().3 == T3::top_spec(),
        <(T0, T1, T2, T3, T4, T5, T6, T7, T8)>::bottom_spec().4 == T4::bottom_spec(),
        <(T0, T1, T2, T3, T4, T5, T6, T7, T8)>::top_spec().4 == T4::top_spec(),
        <(T0, T1, T2, T3, T4, T5, T6, T7, T8)>::bottom_spec().5 == T5::bottom_spec(),
        <(T0, T1, T2, T3, T4, T5, T6, T7, T8)>::top_spec().5 == T5::top_spec(),
        <(T0, T1, T2, T3, T4, T5, T6, T7, T8)>::bottom_spec().6 == T6::bottom_spec(),
        <(T0, T1, T2, T3, T4, T5, T6, T7, T8)>::top_spec().6 == T6::top_spec(),
        <(T0, T1, T2, T3, T4, T5, T6, T7, T8)>::bottom_spec().7 == T7::bottom_spec(),
        <(T0, T1, T2, T3, T4, T5, T6, T7, T8)>::top_spec().7 == T7::top_spec(),
        <(T0, T1, T2, T3, T4, T5, T6, T7, T8)>::bottom_spec().8 == T8::bottom_spec(),
        <(T0, T1, T2, T3, T4, T5, T6, T7, T8)>::top_spec().8 == T8::top_spec(),
{
}

/// The meet of two tuples of 10 holds in each place the meet of the components
/// in that place, and likewise the join.
pub proof fn law_tuple10_componentwise<T0: ProtoLattice, T1: ProtoLattice, T2: ProtoLattice, T3: ProtoLattice, T4: ProtoLattice, T5: ProtoLattice, T6: ProtoLattice, T7: ProtoLattice, T8: ProtoLattice, T9: ProtoLattice>(a: (T0, T1, T2, T3, T4, T5, T6, T7, T8, T9), b: (T0, T1, T2, T3, T4, T5, T6, T7, T8, T9))
    ensures
        a.meet_spec(b).0 == a.0.meet_spec(b.0),
        a.join_spec(b).0 == a.0.join_spec(b.0),
        a.meet_spec(b).1 == a.1.meet_spec(b.1),
        a.join_spec(b).1 == a.1.join_spec(b.1),
        a.meet_spec(b).2 == a.2.meet_spec(b.2),
        a.join_spec(b).2 == a.2.join_spec(b.2),
        a.meet_spec(b).3 == a.3.meet_spec(b.3),
        a.join_spec(b).3 == a.3.join_spec(b.3),
        a.meet_spec(b).4 == a.4.meet_spec(b.4),
        a.join_spec(b).4 == a.4.join_spec(b.4),
        a.meet_spec(b).5 == a.5.meet_spec(b.5),
        a.join_spec(b).5 == a.5.join_spec(b.5),
        a.meet_spec(b).6 == a.6.meet_spec(b.6),
        a.join_spec(b).6 == a.6.join_spec(b.6),
        a.meet_spec(b).7 == a.7.meet_spec(b.7),
        a.join_spec(b).7 == a.7.join_spec(b.7),
        a.meet_spec(b).8 == a.8.meet_spec(b.8),
        a.join_spec(b).8 == a.8.join_spec(b.8),
        a.meet_spec(b).9 == a.9.meet_spec(b.9),
        a.join_spec(b).9 == a.9.join_spec(b.9),
{
}

/// The bottom of a tuple of 10 holds in each place the bottom of that component,
/// and the top the top of that component.
pub proof fn law_tuple10_bounds_componentwise<T0: BoundedLattice, T1: BoundedLattice, T2: BoundedLattice, T3: BoundedLattice, T4: BoundedLattice, T5: BoundedLattice, T6: BoundedLattice, T7: BoundedLattice, T8: BoundedLattice, T9: BoundedLattice>()
    where
        (T0, T1, T2, T3, T4, T5, T6, T7, T8, T9): BoundedLattice,
    ensures
        <(T0, T1, T2, T3, T4, T5, T6, T7, T8, T9)>::bottom_spec().0 == T0::bottom_spec(),
        <(T0, T1, T2, T3, T4, T5, T6, T7, T8, T9)>::top_spec().0 == T0::top_spec(),
        <(T0, T1, T2, T3, T4, T5, T6, T7, T8, T9)>::bottom_spec().1 == T1::bottom_spec(),
        <(T0, T1, T2, T3, T4, T5, T6, T7, T8, T9)>::top_spec().1 == T1::top_spec(),
        <(T0, T1, T2, T3, T4, T5, T6, T7, T8, T9)>::bottom_spec().2 == T2::bottom_spec(),
        <(T0, T1, T2, T3, T4, T5, T6, T7, T8, T9)>::top_spec().2 == T2::top_spec(),
        <(T0, T1, T2, T3, T4, T5, T6, T7, T8, T9)>::bottom_spec().3 == T3::bottom_spec(),
        <(T0, T1, T2, T3, T4, T5, T6, T7, T8, T9)>::top_spec().3 == T3::top_spec(),
        <(T0, T1, T2, T3, T4, T5, T6, T7, T8, T9)>::bottom_spec().4 == T4::bottom_spec(),
        <(T0, T1, T2, T3, T4, T5, T6, T7, T8, T9)>::top_spec().4 == T4::top_spec(),
        <(T0, T1, T2, T3, T4, T5, T6, T7, T8, T9)>::bottom_spec().5 == T5::bottom_spec(),
        <(T0, T1, T2, T3, T4, T5, T6, T7, T8, T9)>::top_spec().5 == T5::top_spec(),
        <(T0, T1, T2, T3, T4, T5, T6, T7, T8, T9)>::bottom_spec().6 == T6::bottom_spec(),
        <(T0, T1, T2, T3, T4, T5, T6, T7, T8, T9)>::top_spec().6 == T6::top_spec(),
        <(T0, T1, T2, T3, T4, T5, T6, T7, T8, T9)>::bottom_spec().7 == T7::bottom_spec(),
        <(T0, T1, T2, T3, T4, T5, T6, T7, T8, T9)>::top_spec().7 == T7::top_spec(),
        <(T0, T1, T2, T3, T4, T5, T6, T7, T8, T9)>::bottom_spec().8 == T8::bottom_spec(),
        <(T0, T1, T2, T3, T4, T5, T6, T7, T8, T9)>::top_spec().8 == T8::top_spec(),
        <(T0, T1, T2, T3, T4, T5, T6, T7, T8, T9)>::bottom_spec().9 == T9::bottom_spec(),
        <(T0, T1, T2, T3, T4, T5, T6, T7, T8, T9)>::top_spec().9 == T9::top_spec(),
{
}

/// The meet of two tuples of 11 holds in each place the meet of the components
/// in that place, and likewise the join.
pub proof fn law_tuple11_componentwise<T0: ProtoLattice, T1: ProtoLattice, T2: ProtoLattice, T3: ProtoLattice, T4: ProtoLattice, T5: ProtoLattice, T6: ProtoLattice, T7: ProtoLattice, T8: ProtoLattice, T9: ProtoLattice, T10: ProtoLattice>(a: (T0, T1, T2, T3, T4, T5, T6, T7, T8, T9, T10), b: (T0, T1, T2, T3, T4, T5, T6, T7, T8, T9, T10))
    ensures
        a.meet_spec(b).0 == a.0.meet_spec(b.0),
        a.join_spec(b).0 == a.0.join_spec(b.0),
        a.meet_spec(b).1 == a.1.meet_spec(b.1),
        a.join_spec(b).1 == a.1.join_spec(b.1),
        a.meet_spec(b).2 == a.2.meet_spec(b.2),
        a.join_spec(b).2 == a.2.join_spec(b.2),
        a.meet_spec(b).3 == a.3.meet_spec(b.3),
        a.join_spec(b).3 == a.3.join_spec(b.3),
        a.meet_spec(b).4 == a.4.meet_spec(b.4),
        a.join_spec(b).4 == a.4.join_spec(b.4),
        a.meet_spec(b).5 == a.5.meet_spec(b.5),
        a.join_spec(b).5 == a.5.join_spec(b.5),
        a.meet_spec(b).6 == a.6.meet_spec(b.6),
        a.join_spec(b).6 == a.6.join_spec(b.6),
        a.meet_spec(b).7 == a.7.meet_spec(b.7),
        a.join_spec(b).7 == a.7.join_spec(b.7),
        a.meet_spec(b).8 == a.8.meet_spec(b.8),
        a.join_spec(b).8 == a.8.join_spec(b.8),
        a.meet_spec(b).9 == a.9.meet_spec(b.9),
        a.join_spec(b).9 == a.9.join_spec(b.9),
        a.meet_spec(b).10 == a.10.meet_spec(b.10),
        a.join_spec(b).10 == a.10.join_spec(b.10),
{
}

/// The bottom of a tuple of 11 holds in each place the bottom of that component,
/// and the top the top of that component.
pub proof fn law_tuple11_bounds_componentwise<T0: BoundedLattice, T1: BoundedLattice, T2: BoundedLattice, T3: BoundedLattice, T4: BoundedLattice, T5: BoundedLattice, T6: BoundedLattice, T7: BoundedLattice, T8: BoundedLattice, T9: BoundedLattice, T10: BoundedLattice>()
    where
        (T0, T1, T2, T3, T4, T5, T6, T7, T8, T9, T10): BoundedLattice,
    ensures
        <(T0, T1, T2, T3, T4, T5, T6, T7, T8, T9, T10)>::bottom_spec().0 == T0::bottom_spec(),
        <(T0, T1, T2, T3, T4, T5, T6, T7, T8, T9, T10)>::top_spec().0 == T0::top_spec(),
        <(T0, T1, T2, T3, T4, T5, T6, T7, T8, T9, T10)>::bottom_spec().1 == T1::bottom_spec(),
        <(T0, T1, T2, T3, T4, T5, T6, T7, T8, T9, T10)>::top_spec().1 == T1::top_spec(),
        <(T0, T1, T2, T3, T4, T5, T6, T7, T8, T9, T10)>::bottom_spec().2 == T2::bottom_spec(),
        <(T0, T1, T2, T3, T4, T5, T6, T7, T8, T9, T10)>::top_spec().2 == T2::top_spec(),
        <(T0, T1, T2, T3, T4, T5, T6, T7, T8, T9, T10)>::bottom_spec().3 == T3::bottom_spec(),
        <(T0, T1, T2, T3, T4, T5, T6, T7, T8, T9, T10)>::top_spec().3 == T3::top_spec(),
        <(T0, T1, T2, T3, T4, T5, T6, T7, T8, T9, T10)>::bottom_spec().4 == T4::bottom_spec(),
        <(T0, T1, T2, T3, T4, T5, T6, T7, T8, T9, T10)>::top_spec().4 == T4::top_spec(),
        <(T0, T1, T2, T3, T4, T5, T6, T7, T8, T9, T10)>::bottom_spec().5 == T5::bottom_spec(),
        <(T0, T1, T2, T3, T4, T5, T6, T7, T8, T9, T10)>::top_spec().5 == T5::top_spec(),
        <(T0, T1, T2, T3, T4, T5, T6, T7, T8, T9, T10)>::bottom_spec().6 == T6::bottom_spec(),
        <(T0, T1, T2, T3, T4, T5, T6, T7, T8, T9, T10)>::top_spec().6 == T6::top_spec(),
        <(T0, T1, T2, T3, T4, T5, T6, T7, T8, T9, T10)>::bottom_spec().7 == T7::bottom_spec(),
        <(T0, T1, T2, T3, T4, T5, T6, T7, T8, T9, T10)>::top_spec().7 == T7::top_spec(),
        <(T0, T1, T2, T3, T4, T5, T6, T7, T8, T9, T10)>::bottom_spec().8 == T8::bottom_spec(),
        <(T0, T1, T2, T3, T4, T5, T6, T7, T8, T9, T10)>::top_spec().8 == T8::top_spec(),
        <(T0, T1, T2, T3, T4, T5, T6, T7, T8, T9, T10)>::bottom_spec().9 == T9::bottom_spec(),
        <(T0, T1, T2, T3, T4, T5, T6, T7, T8, T9, T10)>::top_spec().9 == T9::top_spec(),
        <(T0, T1, T2, T3, T4, T5, T6, T7, T8, T9, T10)>::bottom_spec().10 == T10::bottom_spec(),
        <(T0, T1, T2, T3, T4, T5, T6, T7, T8, T9, T10)>::top_spec().10 == T10::top_spec(),
{
}

} // verus!
