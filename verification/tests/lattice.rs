use std::rc::Rc;

use infer_base::dual::Dual;
use infer_base::lattice::{BoundedLattice, Lattice, ProtoLattice};

#[test]
fn test_tuple_lattice() {
   let t1 = (1, 3);
   let t2 = (0, 10);

   assert_eq!(Lattice::meet(t1, t2), (0, 3));
   assert_eq!(Lattice::join(t1, t2), (1, 10));

   assert!((1, 3) < (2, 3));
}

#[test]
fn exp_borrowing() {
   // let mut v: Vec<i32> = vec![];
   // let mut u: Vec<i32> = vec![];
   // for i in 0..v.len(){
   //    let v_row = &v[i];

   //    for j in 0..u.len(){
   //       let u_row = &u[j];
   //       let new_row = *u_row + *v_row;
   //       v.push(new_row);
   //    }
   // }
}

#[test]
fn bool_meet_is_and_join_is_or() {
   assert_eq!(ProtoLattice::meet(true, false), false);
   assert_eq!(ProtoLattice::meet(true, true), true);
   assert_eq!(ProtoLattice::join(false, true), true);
   assert_eq!(ProtoLattice::join(false, false), false);
   assert_eq!(<bool as BoundedLattice>::bottom(), false);
   assert_eq!(<bool as BoundedLattice>::top(), true);
}

#[test]
fn integers_meet_is_min_and_join_is_max() {
   assert_eq!(ProtoLattice::meet(3i32, -7i32), -7);
   assert_eq!(ProtoLattice::join(3i32, -7i32), 3);
   assert_eq!(ProtoLattice::meet(200u8, 13u8), 13);
   assert_eq!(ProtoLattice::join(200u8, 13u8), 200);
   assert_eq!(ProtoLattice::meet(u64::MAX, 1u64), 1);
   assert_eq!(ProtoLattice::join(-1isize, -2isize), -1);
   assert_eq!(ProtoLattice::meet(5usize, 9usize), 5);
   assert_eq!(ProtoLattice::join(i16::MIN, 0i16), 0);
   assert_eq!(ProtoLattice::meet(70000u32, 70001u32), 70000);
   assert_eq!(ProtoLattice::join(-8i8, 8i8), 8);
   assert_eq!(ProtoLattice::meet(65535u16, 0u16), 0);
   assert_eq!(ProtoLattice::join(i64::MIN, i64::MAX), i64::MAX);
}

#[test]
fn integer_bounds_are_min_and_max() {
   assert_eq!(<i8 as BoundedLattice>::bottom(), i8::MIN);
   assert_eq!(<i8 as BoundedLattice>::top(), i8::MAX);
   assert_eq!(<u8 as BoundedLattice>::bottom(), 0);
   assert_eq!(<u8 as BoundedLattice>::top(), 255);
   assert_eq!(<i32 as BoundedLattice>::bottom(), i32::MIN);
   assert_eq!(<u64 as BoundedLattice>::top(), u64::MAX);
   assert_eq!(<usize as BoundedLattice>::top(), usize::MAX);
   assert_eq!(<isize as BoundedLattice>::bottom(), isize::MIN);
   assert_eq!(<i16 as BoundedLattice>::top(), i16::MAX);
   assert_eq!(<u16 as BoundedLattice>::bottom(), 0);
   assert_eq!(<u32 as BoundedLattice>::top(), u32::MAX);
   assert_eq!(<i64 as BoundedLattice>::bottom(), i64::MIN);
}

#[test]
fn meet_mut_reports_change() {
   let mut x = 10i32;
   assert!(x.meet_mut(4));
   assert_eq!(x, 4);
   assert!(!x.meet_mut(4));
   assert!(!x.meet_mut(20));
   assert_eq!(x, 4);
}

#[test]
fn join_mut_reports_change() {
   let mut x = false;
   assert!(!x.join_mut(false));
   assert!(x.join_mut(true));
   assert_eq!(x, true);
   assert!(!x.join_mut(true));
   let mut t = (1u8, 5u8);
   assert!(t.join_mut((3, 2)));
   assert_eq!(t, (3, 5));
   assert!(!t.join_mut((3, 2)));
}

#[test]
fn lattice_meet_and_join_by_value() {
   assert_eq!(Lattice::meet(7u32, 2u32), 2);
   assert_eq!(Lattice::join(7u32, 2u32), 7);
   assert_eq!(Lattice::meet(Some(3i64), None), None);
   assert_eq!(Lattice::join(Some(3i64), None), Some(3));
}

#[test]
fn option_meet_needs_both() {
   assert_eq!(ProtoLattice::meet(Some(4i32), Some(9i32)), Some(4));
   assert_eq!(ProtoLattice::meet(Some(4i32), None), None);
   assert_eq!(ProtoLattice::meet(None, Some(9i32)), None);
   assert_eq!(ProtoLattice::meet(None::<i32>, None), None);
}

#[test]
fn option_join_keeps_either() {
   assert_eq!(ProtoLattice::join(Some(4i32), Some(9i32)), Some(9));
   assert_eq!(ProtoLattice::join(Some(4i32), None), Some(4));
   assert_eq!(ProtoLattice::join(None, Some(9i32)), Some(9));
   assert_eq!(ProtoLattice::join(None::<i32>, None), None);
}

#[test]
fn option_bounds() {
   assert_eq!(<Option<u8> as BoundedLattice>::bottom(), None);
   assert_eq!(<Option<u8> as BoundedLattice>::top(), Some(255));
   assert_eq!(<Option<bool> as BoundedLattice>::top(), Some(true));
}

#[test]
fn dual_reverses_order() {
   assert!(Dual(2) < Dual(1));
   assert!(Dual(1) > Dual(2));
   assert!(Dual(5) <= Dual(5));
   assert!(Dual(1) == Dual(1));
   assert!(Dual(1) != Dual(2));
}

#[test]
fn dual_swaps_meet_and_join() {
   assert_eq!(ProtoLattice::meet(Dual(2i32), Dual(7i32)).0, 7);
   assert_eq!(ProtoLattice::join(Dual(2i32), Dual(7i32)).0, 2);
   assert_eq!(ProtoLattice::meet(Dual(true), Dual(false)).0, true);
   assert_eq!(Lattice::meet(Dual(Some(3u8)), Dual(None)).0, Some(3));
}

#[test]
fn dual_swaps_bounds() {
   assert_eq!(<Dual<u8> as BoundedLattice>::bottom().0, 255);
   assert_eq!(<Dual<u8> as BoundedLattice>::top().0, 0);
   assert_eq!(<Dual<Dual<i8>> as BoundedLattice>::top().0 .0, i8::MAX);
}

#[test]
fn dual_meet_mut_reports_change() {
   let mut d = Dual(3u16);
   assert!(d.meet_mut(Dual(10)));
   assert_eq!(d.0, 10);
   assert!(!d.meet_mut(Dual(1)));
   assert_eq!(d.0, 10);
}

#[test]
fn unit_lattice() {
   assert_eq!(ProtoLattice::meet((), ()), ());
   assert_eq!(ProtoLattice::join((), ()), ());
}

#[test]
fn box_and_rc_meet_their_contents() {
   assert_eq!(*ProtoLattice::meet(Box::new(4u8), Box::new(6u8)), 4);
   assert_eq!(*ProtoLattice::join(Box::new(4u8), Box::new(6u8)), 6);
   assert_eq!(*ProtoLattice::meet(Rc::new(Some(1i32)), Rc::new(Some(-1i32))), Some(-1));
   assert_eq!(*ProtoLattice::join(Rc::new(None), Rc::new(Some(8i32))), Some(8));
}

#[test]
fn tuples_meet_component_by_component() {
   assert_eq!(ProtoLattice::meet((1u8,), (0u8,)), (0,));
   assert_eq!(ProtoLattice::meet((1, true, Some(3)), (2, false, None)), (1, false, None));
   assert_eq!(ProtoLattice::join((1, true, Some(3)), (2, false, None)), (2, true, Some(3)));
   let a = (1u8, 2u8, 3u8, 4u8, 5u8, 6u8, 7u8, 8u8, 9u8, 10u8, 11u8);
   let b = (11u8, 10u8, 9u8, 8u8, 7u8, 6u8, 5u8, 4u8, 3u8, 2u8, 1u8);
   assert_eq!(ProtoLattice::meet(a, b), (1, 2, 3, 4, 5, 6, 5, 4, 3, 2, 1));
   assert_eq!(ProtoLattice::join(a, b), (11, 10, 9, 8, 7, 6, 7, 8, 9, 10, 11));
}

#[test]
fn tuple_bounds() {
   assert_eq!(<(u8, bool) as BoundedLattice>::bottom(), (0, false));
   assert_eq!(<(u8, bool) as BoundedLattice>::top(), (255, true));
   assert_eq!(<(i8, Option<u8>, bool, u16) as BoundedLattice>::top(), (127, Some(255), true, 65535));
}

#[test]
fn lattice_laws_on_values() {
   let (a, b, c) = (Some(5i32), Some(-2i32), None::<i32>);
   assert_eq!(ProtoLattice::meet(a, b), ProtoLattice::meet(b, a));
   assert_eq!(ProtoLattice::join(a, c), ProtoLattice::join(c, a));
   assert_eq!(
      ProtoLattice::meet(ProtoLattice::meet(a, b), c),
      ProtoLattice::meet(a, ProtoLattice::meet(b, c))
   );
   assert_eq!(ProtoLattice::meet(a, ProtoLattice::join(a, b)), a);
   assert_eq!(ProtoLattice::join(a, ProtoLattice::meet(a, c)), a);
   assert_eq!(ProtoLattice::join(<Option<i32> as BoundedLattice>::bottom(), b), b);
   assert_eq!(ProtoLattice::meet(<Option<i32> as BoundedLattice>::top(), b), b);
   let d = (Dual(3u8), 4u8);
   let e = (Dual(1u8), 9u8);
   assert_eq!(ProtoLattice::meet(d, e).1, ProtoLattice::meet(e, d).1);
   assert_eq!(ProtoLattice::meet(d, e).0 .0, 3);
}

#[test]
fn join_mut_changes_exactly_when_not_above() {
   for a in [-3i32, 0, 4] {
      for b in [-3i32, 0, 4] {
         let mut x = a;
         assert_eq!(x.join_mut(b), !(b <= a));
         let mut y = a;
         assert_eq!(y.meet_mut(b), !(a <= b));
      }
   }
   let mut o: Option<u8> = Some(2);
   assert!(!o.join_mut(None));
   assert!(o.meet_mut(None));
   assert_eq!(o, None);
}

#[test]
fn meet_and_join_order_agree() {
   for a in [0u8, 7, 255] {
      for b in [0u8, 7, 255] {
         assert_eq!(ProtoLattice::meet(a, b) == a, ProtoLattice::join(a, b) == b);
         assert_eq!(ProtoLattice::meet(Dual(a), Dual(b)) == Dual(a), Dual(a) <= Dual(b));
      }
   }
}

#[test]
fn double_dual_is_the_lattice_itself() {
   let (a, b) = (3i32, 8i32);
   assert_eq!(ProtoLattice::join(Dual(Dual(a)), Dual(Dual(b))).0 .0, ProtoLattice::join(a, b));
   assert_eq!(ProtoLattice::meet(Dual(Dual(a)), Dual(Dual(b))).0 .0, ProtoLattice::meet(a, b));
   assert_eq!(Dual(Dual(a)) <= Dual(Dual(b)), a <= b);
   assert_eq!(Dual(Dual(b)) <= Dual(Dual(a)), b <= a);
}

#[test]
fn option_bottom_is_least() {
   let bottom = <Option<u8> as BoundedLattice>::bottom();
   assert_eq!(bottom, None);
   for x in [None, Some(0u8), Some(200u8)] {
      assert!(bottom <= x);
      assert_eq!(ProtoLattice::join(bottom, x), x);
      assert_eq!(ProtoLattice::meet(bottom, x), None);
   }
}
