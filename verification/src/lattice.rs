use vstd::prelude::*;
use vstd::laws_eq::obeys_concrete_eq;
use vstd::pervasive::strictly_cloned;

verus! {

/// Every clone of a value of `T` is equal to the value.
pub open spec fn clone_is_exact<T: Clone>() -> bool {
    forall|a: T, b: T| #[trigger] strictly_cloned(a, b) ==> a == b
}

/// An easy-to-implement trait that provides an implementation of the `Lattice` trait
/// through a blanket implementation (`impl<T: ProtoLattice + Clone> Lattice for T`).
///
/// `meet_spec` and `join_spec` are the mathematical meet and join of the type;
/// `obeys_proto_spec` says that the executable `meet` and `join` compute them.
pub trait ProtoLattice: PartialOrd + Sized {
    spec fn obeys_proto_spec() -> bool;

    spec fn meet_spec(self, other: Self) -> Self;

    spec fn join_spec(self, other: Self) -> Self;

    fn meet(self, other: Self) -> (r: Self)
        ensures
            Self::obeys_proto_spec() ==> r == self.meet_spec(other),
    ;

    fn join(self, other: Self) -> (r: Self)
        ensures
            Self::obeys_proto_spec() ==> r == self.join_spec(other),
    ;
}

/// A lattice whose meet and join can update a value in place, reporting
/// whether the value changed.
pub trait Lattice: PartialOrd + Sized {
    spec fn obeys_lattice_spec() -> bool;

    spec fn lattice_meet(self, other: Self) -> Self;

    spec fn lattice_join(self, other: Self) -> Self;

    /// Replaces `self` by its meet with `other`; returns whether `self` changed.
    fn meet_mut(&mut self, other: Self) -> (changed: bool)
        ensures
            Self::obeys_lattice_spec() ==> {
                &&& *final(self) == old(self).lattice_meet(other)
                &&& changed == (*final(self) != *old(self))
            },
    ;

    /// Replaces `self` by its join with `other`; returns whether `self` changed.
    fn join_mut(&mut self, other: Self) -> (changed: bool)
        ensures
            Self::obeys_lattice_spec() ==> {
                &&& *final(self) == old(self).lattice_join(other)
                &&& changed == (*final(self) != *old(self))
            },
    ;

    fn meet(self, other: Self) -> (r: Self)
        ensures
            Self::obeys_lattice_spec() ==> r == self.lattice_meet(other),
    {
        let mut s = self;
        s.meet_mut(other);
        s
    }

    fn join(self, other: Self) -> (r: Self)
        ensures
            Self::obeys_lattice_spec() ==> r == self.lattice_join(other),
    {
        let mut s = self;
        s.join_mut(other);
        s
    }
}

impl<T: ProtoLattice + Clone> Lattice for T {
    /// The in-place operations are exact when `meet`/`join` are, when a clone
    /// equals the value it was cloned from, and when `!=` is inequality of values.
    ///
    /// This is proved for `bool`, the integer types, and `Option` and `Dual` over
    /// them (the `law_*_exact` proofs). For tuples, `()`, `Box` and `Rc` no proof
    /// establishes it, since nothing specifies the `Clone` of tuples and of `()` or
    /// the `==` of `Box` and `Rc`; for those types `meet_mut`, `join_mut`,
    /// `Lattice::meet` and `Lattice::join` promise nothing about their results,
    /// while their `ProtoLattice::meet`/`join` are still exact.
    open spec fn obeys_lattice_spec() -> bool {
        &&& T::obeys_proto_spec()
        &&& clone_is_exact::<T>()
        &&& obeys_concrete_eq::<T>()
    }

    open spec fn lattice_meet(self, other: Self) -> Self {
        self.meet_spec(other)
    }

    open spec fn lattice_join(self, other: Self) -> Self {
        self.join_spec(other)
    }

    fn meet_mut(&mut self, other: Self) -> (changed: bool) {
        let copy = self.clone();
        proof {
            reveal(obeys_concrete_eq);
            assert(strictly_cloned(*self, copy));
        }
        let new_self = ProtoLattice::meet(copy, other);
        let res = &*self != &new_self;
        *self = new_self;
        res
    }

    fn join_mut(&mut self, other: Self) -> (changed: bool) {
        let copy = self.clone();
        proof {
            reveal(obeys_concrete_eq);
            assert(strictly_cloned(*self, copy));
        }
        let new_self = ProtoLattice::join(copy, other);
        let res = &*self != &new_self;
        *self = new_self;
        res
    }
}

/// A lattice with a least element `bottom` and a greatest element `top`.
pub trait BoundedLattice: Lattice {
    spec fn bottom_spec() -> Self;

    spec fn top_spec() -> Self;

    fn bottom() -> (r: Self)
        ensures
            r == Self::bottom_spec(),
    ;

    fn top() -> (r: Self)
        ensures
            r == Self::top_spec(),
    ;
}

} // verus!
