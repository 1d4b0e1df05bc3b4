use vstd::prelude::*;
use vstd::laws_eq::obeys_concrete_eq;
use vstd::std_specs::cmp::PartialOrdSpec;
use crate::lattice::{clone_is_exact, BoundedLattice, Lattice, ProtoLattice};
use crate::laws::{
    absorptive, associative, commutative, is_bounded, is_lattice, lemma_absorptive,
    lemma_associative, lemma_bounded, lemma_commutative, lemma_order_agrees, order_agrees,
};

verus! {

/// `None` lies below every `Some`; two `Some`s meet and join inside.
impl<T: ProtoLattice> ProtoLattice for Option<T> {
    open spec fn obeys_proto_spec() -> bool {
        T::obeys_proto_spec()
    }

    open spec fn meet_spec(self, other: Self) -> Self {
        match (self, other) {
            (Some(x), Some(y)) => Some(x.meet_spec(y)),
            _ => None,
        }
    }

    open spec fn join_spec(self, other: Self) -> Self {
        match (self, other) {
            (None, y) => y,
            (x, None) => x,
            (Some(x), Some(y)) => Some(x.join_spec(y)),
        }
    }

    fn meet(self, other: Self) -> (r: Self)
        ensures
            (self is None || other is None) ==> r is None,
            (self is Some && other is Some) ==> r is Some,
    {
        match (self, other) {
            (Some(x), Some(y)) => Some(x.meet(y)),
            _ => None,
        }
    }

    fn join(self, other: Self) -> (r: Self)
        ensures
            self is None ==> r == other,
            other is None ==> r == self,
            (self is Some && other is Some) ==> r is Some,
    {
        match (self, other) {
            (None, y) => y,
            (x, None) => x,
            (Some(x), Some(y)) => Some(x.join(y)),
        }
    }
}

impl<T: BoundedLattice + Eq> BoundedLattice for Option<T> where Option<T>: Lattice {
    open spec fn bottom_spec() -> Self {
        None
    }

    open spec fn top_spec() -> Self {
        Some(T::top_spec())
    }

    fn bottom() -> (r: Self) {
        None
    }

    fn top() -> (r: Self) {
        Some(T::top())
    }
}

proof fn lemma_option_commutative<T: ProtoLattice>()
    requires
        commutative::<T>(),
    ensures
        commutative::<Option<T>>(),
{
    reveal(commutative);
}

proof fn lemma_option_associative<T: ProtoLattice>()
    requires
        associative::<T>(),
    ensures
        associative::<Option<T>>(),
{
    assert forall|a: Option<T>, b: Option<T>, c: Option<T>|
        #[trigger] a.meet_spec(b).meet_spec(c) == a.meet_spec(b.meet_spec(c))
        && a.join_spec(b).join_spec(c) == a.join_spec(b.join_spec(c)) by {
        if a is Some && b is Some && c is Some {
            lemma_associative(a->0, b->0, c->0);
        }
    }
    reveal(associative);
}

proof fn lemma_option_absorptive<T: ProtoLattice>()
    requires
        absorptive::<T>(),
    ensures
        absorptive::<Option<T>>(),
{
    assert forall|a: Option<T>, b: Option<T>|
        #[trigger] a.meet_spec(a.join_spec(b)) == a && a.join_spec(a.meet_spec(b)) == a by {
        if a is Some {
            let x = a->0;
            if b is Some {
                lemma_absorptive(x, b->0);
            } else {
                lemma_absorptive(x, x);
                lemma_absorptive(x, x.meet_spec(x));
                lemma_absorptive(x, x.join_spec(x));
            }
        }
    }
    reveal(absorptive);
}

/// If `T` is a lattice, so is `Option<T>`, with `None` below everything.
pub proof fn law_option_lattice<T: ProtoLattice>()
    requires
        is_lattice::<T>(),
    ensures
        is_lattice::<Option<T>>(),
{
    lemma_option_commutative::<T>();
    lemma_option_associative::<T>();
    lemma_option_absorptive::<T>();
}

/// If `T` is a bounded lattice, `Option<T>` is bounded by `None` and `Some(T::top())`.
pub proof fn law_option_bounded<T: BoundedLattice + ProtoLattice + Eq>()
    where
        Option<T>: BoundedLattice,
    requires
        is_bounded::<T>(),
    ensures
        is_bounded::<Option<T>>(),
{
    assert forall|x: Option<T>|
        Option::<T>::bottom_spec().join_spec(x) == x && #[trigger] Option::<T>::top_spec().meet_spec(
            x,
        ) == x by {
        if x is Some {
            lemma_bounded::<T>(x->0);
        }
    }
    reveal(is_bounded);
}

/// `None`, the bottom of `Option<T>`, lies below every value: joining it changes
/// nothing, meeting with it gives `None`, and it compares as less or equal.
pub proof fn law_option_bottom_least<T: BoundedLattice + ProtoLattice + Eq>(x: Option<T>)
    where
        Option<T>: BoundedLattice,
    ensures
        Option::<T>::bottom_spec() == None::<T>,
        Option::<T>::bottom_spec().join_spec(x) == x,
        Option::<T>::bottom_spec().meet_spec(x) == None::<T>,
        Option::<T>::bottom_spec().partial_cmp_spec(&x) matches Some(
            core::cmp::Ordering::Less
            | core::cmp::Ordering::Equal,
        ),
{
}

/// Two `Some`s meet and join inside; `None` meets anything to `None` and joins
/// anything to that other value.
pub proof fn law_option_meet_join<T: ProtoLattice>(x: T, y: T, o: Option<T>)
    ensures
        Some(x).meet_spec(Some(y)) == Some(x.meet_spec(y)),
        Some(x).join_spec(Some(y)) == Some(x.join_spec(y)),
        None::<T>.meet_spec(o) == None::<T>,
        o.meet_spec(None::<T>) == None::<T>,
        None::<T>.join_spec(o) == o,
        o.join_spec(None::<T>) == o,
{
}

/// If the order of `T` agrees with its meet, so does the order of `Option<T>`.
pub proof fn law_option_order<T: ProtoLattice>()
    requires
        order_agrees::<T>(),
    ensures
        order_agrees::<Option<T>>(),
{
    lemma_order_agrees::<T>(arbitrary(), arbitrary());
    assert forall|a: Option<T>, b: Option<T>|
        #![trigger a.partial_cmp_spec(&b)]
        a.partial_cmp_spec(&b) matches Some(
            core::cmp::Ordering::Less
            | core::cmp::Ordering::Equal,
        ) <==> a.meet_spec(b) == a by {
        if a is Some && b is Some {
            lemma_order_agrees(a->0, b->0);
        }
    }
    reveal(order_agrees);
}

/// If `T`'s `meet_mut`/`join_mut` are exact, so are those of `Option<T>`.
pub proof fn law_option_exact<T: ProtoLattice + Clone + PartialEq>()
    requires
        <T as Lattice>::obeys_lattice_spec(),
    ensures
        <Option<T> as Lattice>::obeys_lattice_spec(),
{
    broadcast use vstd::laws_eq::lemma_option_obeys_concrete_eq;

    assert(clone_is_exact::<Option<T>>());
}

} // verus!
