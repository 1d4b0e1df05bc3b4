use vstd::prelude::*;
use crate::lattice::{clone_is_exact, BoundedLattice, Lattice, ProtoLattice};
use crate::laws::{absorptive, associative, commutative, is_bounded, is_lattice, order_agrees};

verus! {

impl ProtoLattice for bool {
    open spec fn obeys_proto_spec() -> bool {
        true
    }

    open spec fn meet_spec(self, other: Self) -> Self {
        self && other
    }

    open spec fn join_spec(self, other: Self) -> Self {
        self || other
    }

    fn meet(self, other: Self) -> (r: Self) {
        self && other
    }

    fn join(self, other: Self) -> (r: Self) {
        self || other
    }
}

impl BoundedLattice for bool {
    open spec fn bottom_spec() -> Self {
        false
    }

    open spec fn top_spec() -> Self {
        true
    }

    fn bottom() -> (r: Self) {
        false
    }

    fn top() -> (r: Self) {
        true
    }
}

/// `bool` with `&&` and `||` is a bounded lattice, from `false` to `true`, and its
/// `meet_mut`/`join_mut` are exact.
pub proof fn law_bool_lattice()
    ensures
        forall|a: bool, b: bool| #[trigger] a.meet_spec(b) == (a && b),
        forall|a: bool, b: bool| #[trigger] a.join_spec(b) == (a || b),
        <bool as BoundedLattice>::bottom_spec() == false,
        <bool as BoundedLattice>::top_spec() == true,
        is_lattice::<bool>(),
        is_bounded::<bool>(),
        <bool as Lattice>::obeys_lattice_spec(),
{
    reveal(commutative);
    reveal(associative);
    reveal(absorptive);
    reveal(is_bounded);
    assert(clone_is_exact::<bool>());
}

impl ProtoLattice for i8 {
    open spec fn obeys_proto_spec() -> bool {
        true
    }

    open spec fn meet_spec(self, other: Self) -> Self {
        if self <= other { self } else { other }
    }

    open spec fn join_spec(self, other: Self) -> Self {
        if self >= other { self } else { other }
    }

    fn meet(self, other: Self) -> (r: Self) {
        self.min(other)
    }

    fn join(self, other: Self) -> (r: Self) {
        self.max(other)
    }
}

impl BoundedLattice for i8 {
    open spec fn bottom_spec() -> Self {
        i8::MIN
    }

    open spec fn top_spec() -> Self {
        i8::MAX
    }

    fn bottom() -> (r: Self) {
        i8::MIN
    }

    fn top() -> (r: Self) {
        i8::MAX
    }
}

/// `i8` with `min` and `max` is a bounded lattice, from `i8::MIN` to `i8::MAX`, whose
/// order is that of `PartialOrd`, and its `meet_mut`/`join_mut` are exact.
pub proof fn law_i8_lattice()
    ensures
        forall|a: i8, b: i8| #[trigger] a.meet_spec(b) <= a && a.meet_spec(b) <= b && (
            a.meet_spec(b) == a || a.meet_spec(b) == b),
        forall|a: i8, b: i8| #[trigger] a.join_spec(b) >= a && a.join_spec(b) >= b && (
            a.join_spec(b) == a || a.join_spec(b) == b),
        <i8 as BoundedLattice>::bottom_spec() == i8::MIN,
        <i8 as BoundedLattice>::top_spec() == i8::MAX,
        is_lattice::<i8>(),
        is_bounded::<i8>(),
        order_agrees::<i8>(),
        <i8 as Lattice>::obeys_lattice_spec(),
{
    reveal(commutative);
    reveal(associative);
    reveal(absorptive);
    reveal(is_bounded);
    reveal(order_agrees);
    assert(clone_is_exact::<i8>());
}

impl ProtoLattice for u8 {
    open spec fn obeys_proto_spec() -> bool {
        true
    }

    open spec fn meet_spec(self, other: Self) -> Self {
        if self <= other { self } else { other }
    }

    open spec fn join_spec(self, other: Self) -> Self {
        if self >= other { self } else { other }
    }

    fn meet(self, other: Self) -> (r: Self) {
        self.min(other)
    }

    fn join(self, other: Self) -> (r: Self) {
        self.max(other)
    }
}

impl BoundedLattice for u8 {
    open spec fn bottom_spec() -> Self {
        u8::MIN
    }

    open spec fn top_spec() -> Self {
        u8::MAX
    }

    fn bottom() -> (r: Self) {
        u8::MIN
    }

    fn top() -> (r: Self) {
        u8::MAX
    }
}

/// `u8` with `min` and `max` is a bounded lattice, from `u8::MIN` to `u8::MAX`, whose
/// order is that of `PartialOrd`, and its `meet_mut`/`join_mut` are exact.
pub proof fn law_u8_lattice()
    ensures
        forall|a: u8, b: u8| #[trigger] a.meet_spec(b) <= a && a.meet_spec(b) <= b && (
            a.meet_spec(b) == a || a.meet_spec(b) == b),
        forall|a: u8, b: u8| #[trigger] a.join_spec(b) >= a && a.join_spec(b) >= b && (
            a.join_spec(b) == a || a.join_spec(b) == b),
        <u8 as BoundedLattice>::bottom_spec() == u8::MIN,
        <u8 as BoundedLattice>::top_spec() == u8::MAX,
        is_lattice::<u8>(),
        is_bounded::<u8>(),
        order_agrees::<u8>(),
        <u8 as Lattice>::obeys_lattice_spec(),
{
    reveal(commutative);
    reveal(associative);
    reveal(absorptive);
    reveal(is_bounded);
    reveal(order_agrees);
    assert(clone_is_exact::<u8>());
}

impl ProtoLattice for i16 {
    open spec fn obeys_proto_spec() -> bool {
        true
    }

    open spec fn meet_spec(self, other: Self) -> Self {
        if self <= other { self } else { other }
    }

    open spec fn join_spec(self, other: Self) -> Self {
        if self >= other { self } else { other }
    }

    fn meet(self, other: Self) -> (r: Self) {
        self.min(other)
    }

    fn join(self, other: Self) -> (r: Self) {
        self.max(other)
    }
}

impl BoundedLattice for i16 {
    open spec fn bottom_spec() -> Self {
        i16::MIN
    }

    open spec fn top_spec() -> Self {
        i16::MAX
    }

    fn bottom() -> (r: Self) {
        i16::MIN
    }

    fn top() -> (r: Self) {
        i16::MAX
    }
}

/// `i16` with `min` and `max` is a bounded lattice, from `i16::MIN` to `i16::MAX`, whose
/// order is that of `PartialOrd`, and its `meet_mut`/`join_mut` are exact.
pub proof fn law_i16_lattice()
    ensures
        forall|a: i16, b: i16| #[trigger] a.meet_spec(b) <= a && a.meet_spec(b) <= b && (
            a.meet_spec(b) == a || a.meet_spec(b) == b),
        forall|a: i16, b: i16| #[trigger] a.join_spec(b) >= a && a.join_spec(b) >= b && (
            a.join_spec(b) == a || a.join_spec(b) == b),
        <i16 as BoundedLattice>::bottom_spec() == i16::MIN,
        <i16 as BoundedLattice>::top_spec() == i16::MAX,
        is_lattice::<i16>(),
        is_bounded::<i16>(),
        order_agrees::<i16>(),
        <i16 as Lattice>::obeys_lattice_spec(),
{
    reveal(commutative);
    reveal(associative);
    reveal(absorptive);
    reveal(is_bounded);
    reveal(order_agrees);
    assert(clone_is_exact::<i16>());
}

impl ProtoLattice for u16 {
    open spec fn obeys_proto_spec() -> bool {
        true
    }

    open spec fn meet_spec(self, other: Self) -> Self {
        if self <= other { self } else { other }
    }

    open spec fn join_spec(self, other: Self) -> Self {
        if self >= other { self } else { other }
    }

    fn meet(self, other: Self) -> (r: Self) {
        self.min(other)
    }

    fn join(self, other: Self) -> (r: Self) {
        self.max(other)
    }
}

impl BoundedLattice for u16 {
    open spec fn bottom_spec() -> Self {
        u16::MIN
    }

    open spec fn top_spec() -> Self {
        u16::MAX
    }

    fn bottom() -> (r: Self) {
        u16::MIN
    }

    fn top() -> (r: Self) {
        u16::MAX
    }
}

/// `u16` with `min` and `max` is a bounded lattice, from `u16::MIN` to `u16::MAX`, whose
/// order is that of `PartialOrd`, and its `meet_mut`/`join_mut` are exact.
pub proof fn law_u16_lattice()
    ensures
        forall|a: u16, b: u16| #[trigger] a.meet_spec(b) <= a && a.meet_spec(b) <= b && (
            a.meet_spec(b) == a || a.meet_spec(b) == b),
        forall|a: u16, b: u16| #[trigger] a.join_spec(b) >= a && a.join_spec(b) >= b && (
            a.join_spec(b) == a || a.join_spec(b) == b),
        <u16 as BoundedLattice>::bottom_spec() == u16::MIN,
        <u16 as BoundedLattice>::top_spec() == u16::MAX,
        is_lattice::<u16>(),
        is_bounded::<u16>(),
        order_agrees::<u16>(),
        <u16 as Lattice>::obeys_lattice_spec(),
{
    reveal(commutative);
    reveal(associative);
    reveal(absorptive);
    reveal(is_bounded);
    reveal(order_agrees);
    assert(clone_is_exact::<u16>());
}

impl ProtoLattice for i32 {
    open spec fn obeys_proto_spec() -> bool {
        true
    }

    open spec fn meet_spec(self, other: Self) -> Self {
        if self <= other { self } else { other }
    }

    open spec fn join_spec(self, other: Self) -> Self {
        if self >= other { self } else { other }
    }

    fn meet(self, other: Self) -> (r: Self) {
        self.min(other)
    }

    fn join(self, other: Self) -> (r: Self) {
        self.max(other)
    }
}

impl BoundedLattice for i32 {
    open spec fn bottom_spec() -> Self {
        i32::MIN
    }

    open spec fn top_spec() -> Self {
        i32::MAX
    }

    fn bottom() -> (r: Self) {
        i32::MIN
    }

    fn top() -> (r: Self) {
        i32::MAX
    }
}

/// `i32` with `min` and `max` is a bounded lattice, from `i32::MIN` to `i32::MAX`, whose
/// order is that of `PartialOrd`, and its `meet_mut`/`join_mut` are exact.
pub proof fn law_i32_lattice()
    ensures
        forall|a: i32, b: i32| #[trigger] a.meet_spec(b) <= a && a.meet_spec(b) <= b && (
            a.meet_spec(b) == a || a.meet_spec(b) == b),
        forall|a: i32, b: i32| #[trigger] a.join_spec(b) >= a && a.join_spec(b) >= b && (
            a.join_spec(b) == a || a.join_spec(b) == b),
        <i32 as BoundedLattice>::bottom_spec() == i32::MIN,
        <i32 as BoundedLattice>::top_spec() == i32::MAX,
        is_lattice::<i32>(),
        is_bounded::<i32>(),
        order_agrees::<i32>(),
        <i32 as Lattice>::obeys_lattice_spec(),
{
    reveal(commutative);
    reveal(associative);
    reveal(absorptive);
    reveal(is_bounded);
    reveal(order_agrees);
    assert(clone_is_exact::<i32>());
}

impl ProtoLattice for u32 {
    open spec fn obeys_proto_spec() -> bool {
        true
    }

    open spec fn meet_spec(self, other: Self) -> Self {
        if self <= other { self } else { other }
    }

    open spec fn join_spec(self, other: Self) -> Self {
        if self >= other { self } else { other }
    }

    fn meet(self, other: Self) -> (r: Self) {
        self.min(other)
    }

    fn join(self, other: Self) -> (r: Self) {
        self.max(other)
    }
}

impl BoundedLattice for u32 {
    open spec fn bottom_spec() -> Self {
        u32::MIN
    }

    open spec fn top_spec() -> Self {
        u32::MAX
    }

    fn bottom() -> (r: Self) {
        u32::MIN
    }

    fn top() -> (r: Self) {
        u32::MAX
    }
}

/// `u32` with `min` and `max` is a bounded lattice, from `u32::MIN` to `u32::MAX`, whose
/// order is that of `PartialOrd`, and its `meet_mut`/`join_mut` are exact.
pub proof fn law_u32_lattice()
    ensures
        forall|a: u32, b: u32| #[trigger] a.meet_spec(b) <= a && a.meet_spec(b) <= b && (
            a.meet_spec(b) == a || a.meet_spec(b) == b),
        forall|a: u32, b: u32| #[trigger] a.join_spec(b) >= a && a.join_spec(b) >= b && (
            a.join_spec(b) == a || a.join_spec(b) == b),
        <u32 as BoundedLattice>::bottom_spec() == u32::MIN,
        <u32 as BoundedLattice>::top_spec() == u32::MAX,
        is_lattice::<u32>(),
        is_bounded::<u32>(),
        order_agrees::<u32>(),
        <u32 as Lattice>::obeys_lattice_spec(),
{
    reveal(commutative);
    reveal(associative);
    reveal(absorptive);
    reveal(is_bounded);
    reveal(order_agrees);
    assert(clone_is_exact::<u32>());
}

impl ProtoLattice for i64 {
    open spec fn obeys_proto_spec() -> bool {
        true
    }

    open spec fn meet_spec(self, other: Self) -> Self {
        if self <= other { self } else { other }
    }

    open spec fn join_spec(self, other: Self) -> Self {
        if self >= other { self } else { other }
    }

    fn meet(self, other: Self) -> (r: Self) {
        self.min(other)
    }

    fn join(self, other: Self) -> (r: Self) {
        self.max(other)
    }
}

impl BoundedLattice for i64 {
    open spec fn bottom_spec() -> Self {
        i64::MIN
    }

    open spec fn top_spec() -> Self {
        i64::MAX
    }

    fn bottom() -> (r: Self) {
        i64::MIN
    }

    fn top() -> (r: Self) {
        i64::MAX
    }
}

/// `i64` with `min` and `max` is a bounded lattice, from `i64::MIN` to `i64::MAX`, whose
/// order is that of `PartialOrd`, and its `meet_mut`/`join_mut` are exact.
pub proof fn law_i64_lattice()
    ensures
        forall|a: i64, b: i64| #[trigger] a.meet_spec(b) <= a && a.meet_spec(b) <= b && (
            a.meet_spec(b) == a || a.meet_spec(b) == b),
        forall|a: i64, b: i64| #[trigger] a.join_spec(b) >= a && a.join_spec(b) >= b && (
            a.join_spec(b) == a || a.join_spec(b) == b),
        <i64 as BoundedLattice>::bottom_spec() == i64::MIN,
        <i64 as BoundedLattice>::top_spec() == i64::MAX,
        is_lattice::<i64>(),
        is_bounded::<i64>(),
        order_agrees::<i64>(),
        <i64 as Lattice>::obeys_lattice_spec(),
{
    reveal(commutative);
    reveal(associative);
    reveal(absorptive);
    reveal(is_bounded);
    reveal(order_agrees);
    assert(clone_is_exact::<i64>());
}

impl ProtoLattice for u64 {
    open spec fn obeys_proto_spec() -> bool {
        true
    }

    open spec fn meet_spec(self, other: Self) -> Self {
        if self <= other { self } else { other }
    }

    open spec fn join_spec(self, other: Self) -> Self {
        if self >= other { self } else { other }
    }

    fn meet(self, other: Self) -> (r: Self) {
        self.min(other)
    }

    fn join(self, other: Self) -> (r: Self) {
        self.max(other)
    }
}

impl BoundedLattice for u64 {
    open spec fn bottom_spec() -> Self {
        u64::MIN
    }

    open spec fn top_spec() -> Self {
        u64::MAX
    }

    fn bottom() -> (r: Self) {
        u64::MIN
    }

    fn top() -> (r: Self) {
        u64::MAX
    }
}

/// `u64` with `min` and `max` is a bounded lattice, from `u64::MIN` to `u64::MAX`, whose
/// order is that of `PartialOrd`, and its `meet_mut`/`join_mut` are exact.
pub proof fn law_u64_lattice()
    ensures
        forall|a: u64, b: u64| #[trigger] a.meet_spec(b) <= a && a.meet_spec(b) <= b && (
            a.meet_spec(b) == a || a.meet_spec(b) == b),
        forall|a: u64, b: u64| #[trigger] a.join_spec(b) >= a && a.join_spec(b) >= b && (
            a.join_spec(b) == a || a.join_spec(b) == b),
        <u64 as BoundedLattice>::bottom_spec() == u64::MIN,
        <u64 as BoundedLattice>::top_spec() == u64::MAX,
        is_lattice::<u64>(),
        is_bounded::<u64>(),
        order_agrees::<u64>(),
        <u64 as Lattice>::obeys_lattice_spec(),
{
    reveal(commutative);
    reveal(associative);
    reveal(absorptive);
    reveal(is_bounded);
    reveal(order_agrees);
    assert(clone_is_exact::<u64>());
}

impl ProtoLattice for isize {
    open spec fn obeys_proto_spec() -> bool {
        true
    }

    open spec fn meet_spec(self, other: Self) -> Self {
        if self <= other { self } else { other }
    }

    open spec fn join_spec(self, other: Self) -> Self {
        if self >= other { self } else { other }
    }

    fn meet(self, other: Self) -> (r: Self) {
        self.min(other)
    }

    fn join(self, other: Self) -> (r: Self) {
        self.max(other)
    }
}

impl BoundedLattice for isize {
    open spec fn bottom_spec() -> Self {
        isize::MIN
    }

    open spec fn top_spec() -> Self {
        isize::MAX
    }

    fn bottom() -> (r: Self) {
        isize::MIN
    }

    fn top() -> (r: Self) {
        isize::MAX
    }
}

/// `isize` with `min` and `max` is a bounded lattice, from `isize::MIN` to `isize::MAX`, whose
/// order is that of `PartialOrd`, and its `meet_mut`/`join_mut` are exact.
pub proof fn law_isize_lattice()
    ensures
        forall|a: isize, b: isize| #[trigger] a.meet_spec(b) <= a && a.meet_spec(b) <= b && (
            a.meet_spec(b) == a || a.meet_spec(b) == b),
        forall|a: isize, b: isize| #[trigger] a.join_spec(b) >= a && a.join_spec(b) >= b && (
            a.join_spec(b) == a || a.join_spec(b) == b),
        <isize as BoundedLattice>::bottom_spec() == isize::MIN,
        <isize as BoundedLattice>::top_spec() == isize::MAX,
        is_lattice::<isize>(),
        is_bounded::<isize>(),
        order_agrees::<isize>(),
        <isize as Lattice>::obeys_lattice_spec(),
{
    reveal(commutative);
    reveal(associative);
    reveal(absorptive);
    reveal(is_bounded);
    reveal(order_agrees);
    assert(clone_is_exact::<isize>());
}

impl ProtoLattice for usize {
    open spec fn obeys_proto_spec() -> bool {
        true
    }

    open spec fn meet_spec(self, other: Self) -> Self {
        if self <= other { self } else { other }
    }

    open spec fn join_spec(self, other: Self) -> Self {
        if self >= other { self } else { other }
    }

    fn meet(self, other: Self) -> (r: Self) {
        self.min(other)
    }

    fn join(self, other: Self) -> (r: Self) {
        self.max(other)
    }
}

impl BoundedLattice for usize {
    open spec fn bottom_spec() -> Self {
        usize::MIN
    }

    open spec fn top_spec() -> Self {
        usize::MAX
    }

    fn bottom() -> (r: Self) {
        usize::MIN
    }

    fn top() -> (r: Self) {
        usize::MAX
    }
}

/// `usize` with `min` and `max` is a bounded lattice, from `usize::MIN` to `usize::MAX`, whose
/// order is that of `PartialOrd`, and its `meet_mut`/`join_mut` are exact.
pub proof fn law_usize_lattice()
    ensures
        forall|a: usize, b: usize| #[trigger] a.meet_spec(b) <= a && a.meet_spec(b) <= b && (
            a.meet_spec(b) == a || a.meet_spec(b) == b),
        forall|a: usize, b: usize| #[trigger] a.join_spec(b) >= a && a.join_spec(b) >= b && (
            a.join_spec(b) == a || a.join_spec(b) == b),
        <usize as BoundedLattice>::bottom_spec() == usize::MIN,
        <usize as BoundedLattice>::top_spec() == usize::MAX,
        is_lattice::<usize>(),
        is_bounded::<usize>(),
        order_agrees::<usize>(),
        <usize as Lattice>::obeys_lattice_spec(),
{
    reveal(commutative);
    reveal(associative);
    reveal(absorptive);
    reveal(is_bounded);
    reveal(order_agrees);
    assert(clone_is_exact::<usize>());
}

impl ProtoLattice for () {
    open spec fn obeys_proto_spec() -> bool {
        true
    }

    open spec fn meet_spec(self, other: Self) -> Self {
        ()
    }

    open spec fn join_spec(self, other: Self) -> Self {
        ()
    }

    fn meet(self, _other: Self) -> (r: Self) {
        ()
    }

    fn join(self, _other: Self) -> (r: Self) {
        ()
    }
}

/// The unit type is the one-point lattice.
pub proof fn law_unit_lattice()
    ensures
        is_lattice::<()>(),
{
    reveal(commutative);
    reveal(associative);
    reveal(absorptive);
}

} // verus!
