use vstd::prelude::*;
use vstd::pervasive::strictly_cloned;
use std::rc::Rc;
use crate::lattice::{clone_is_exact, ProtoLattice};
use crate::laws::{
    absorptive, associative, commutative, is_lattice, lemma_absorptive, lemma_associative,
    lemma_commutative,
};

verus! {

/// A shared pointer meets and joins the values it points to, into a new `Rc`.
impl<T: ProtoLattice + Clone> ProtoLattice for Rc<T> {
    /// The result is the meet of the two pointees when `T`'s meet is exact and a
    /// clone of a `T` equals the value it was cloned from.
    open spec fn obeys_proto_spec() -> bool {
        T::obeys_proto_spec() && clone_is_exact::<T>()
    }

    open spec fn meet_spec(self, other: Self) -> Self {
        Rc::new((*self).meet_spec(*other))
    }

    open spec fn join_spec(self, other: Self) -> Self {
        Rc::new((*self).join_spec(*other))
    }

    fn meet(self, other: Self) -> (r: Self) {
        let a = (*self).clone();
        let b = (*other).clone();
        assert(strictly_cloned(*self, a) && strictly_cloned(*other, b));
        Rc::new(ProtoLattice::meet(a, b))
    }

    fn join(self, other: Self) -> (r: Self) {
        let a = (*self).clone();
        let b = (*other).clone();
        assert(strictly_cloned(*self, a) && strictly_cloned(*other, b));
        Rc::new(ProtoLattice::join(a, b))
    }
}

/// A box meets and joins the values it holds.
impl<T: ProtoLattice + Sized> ProtoLattice for Box<T> {
    open spec fn obeys_proto_spec() -> bool {
        T::obeys_proto_spec()
    }

    open spec fn meet_spec(self, other: Self) -> Self {
        Box::new((*self).meet_spec(*other))
    }

    open spec fn join_spec(self, other: Self) -> Self {
        Box::new((*self).join_spec(*other))
    }

    fn meet(self, other: Self) -> (r: Self) {
        Box::new((*self).meet(*other))
    }

    fn join(self, other: Self) -> (r: Self) {
        Box::new((*self).join(*other))
    }
}

/// If `T` is a lattice, so is `Box<T>`.
pub proof fn law_box_lattice<T: ProtoLattice>()
    requires
        is_lattice::<T>(),
    ensures
        is_lattice::<Box<T>>(),
        forall|a: Box<T>, b: Box<T>| *(#[trigger] a.meet_spec(b)) == (*a).meet_spec(*b),
        forall|a: Box<T>, b: Box<T>| *(#[trigger] a.join_spec(b)) == (*a).join_spec(*b),
{
    assert forall|a: Box<T>, b: Box<T>|
        #[trigger] a.meet_spec(b) == b.meet_spec(a) && a.join_spec(b) == b.join_spec(a) by {
        lemma_commutative(*a, *b);
    }
    assert forall|a: Box<T>, b: Box<T>, c: Box<T>|
        #[trigger] a.meet_spec(b).meet_spec(c) == a.meet_spec(b.meet_spec(c))
        && a.join_spec(b).join_spec(c) == a.join_spec(b.join_spec(c)) by {
        lemma_associative(*a, *b, *c);
    }
    assert forall|a: Box<T>, b: Box<T>|
        #[trigger] a.meet_spec(a.join_spec(b)) == a && a.join_spec(a.meet_spec(b)) == a by {
        lemma_absorptive(*a, *b);
    }
    reveal(commutative);
    reveal(associative);
    reveal(absorptive);
}

/// If `T` is a lattice, so is `Rc<T>`.
pub proof fn law_rc_lattice<T: ProtoLattice + Clone>()
    requires
        is_lattice::<T>(),
    ensures
        is_lattice::<Rc<T>>(),
        forall|a: Rc<T>, b: Rc<T>| *(#[trigger] a.meet_spec(b)) == (*a).meet_spec(*b),
        forall|a: Rc<T>, b: Rc<T>| *(#[trigger] a.join_spec(b)) == (*a).join_spec(*b),
{
    assert forall|a: Rc<T>, b: Rc<T>|
        #[trigger] a.meet_spec(b) == b.meet_spec(a) && a.join_spec(b) == b.join_spec(a) by {
        lemma_commutative(*a, *b);
    }
    assert forall|a: Rc<T>, b: Rc<T>, c: Rc<T>|
        #[trigger] a.meet_spec(b).meet_spec(c) == a.meet_spec(b.meet_spec(c))
        && a.join_spec(b).join_spec(c) == a.join_spec(b.join_spec(c)) by {
        lemma_associative(*a, *b, *c);
    }
    assert forall|a: Rc<T>, b: Rc<T>|
        #[trigger] a.meet_spec(a.join_spec(b)) == a && a.join_spec(a.meet_spec(b)) == a by {
        lemma_absorptive(*a, *b);
    }
    reveal(commutative);
    reveal(associative);
    reveal(absorptive);
}

} // verus!
