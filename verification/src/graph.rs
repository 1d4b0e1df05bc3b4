use vstd::prelude::*;

verus! {

/// The append-only vector of the `boxcar` crate, in which the Datalog engine
/// keeps the facts of a relation.
#[verifier::external_type_specification]
#[verifier::external_body]
#[verifier::reject_recursive_types(T)]
pub struct ExAppendOnlyVec<T>(boxcar::Vec<T>);

/// The edges that a `boxcar::Vec<(i32, i32)>` holds, in the order of their indices.
pub uninterp spec fn edges_of(v: boxcar::Vec<(i32, i32)>) -> Seq<(i32, i32)>;

/// `boxcar::Vec::new`: a new vector holds no element.
#[verifier::external_body]
fn new_edge_vec() -> (v: boxcar::Vec<(i32, i32)>)
    ensures
        edges_of(v) == Seq::<(i32, i32)>::empty(),
{
    boxcar::Vec::new()
}

/// `boxcar::Vec::push`: appends `edge` after the elements already held and returns
/// the index at which it was stored, which with exclusive access is the former length.
#[verifier::external_body]
fn push_edge(v: &mut boxcar::Vec<(i32, i32)>, edge: (i32, i32)) -> (index: usize)
    requires
        edges_of(*old(v)).len() < usize::MAX,
    ensures
        edges_of(*final(v)) == edges_of(*old(v)).push(edge),
        index == edges_of(*old(v)).len(),
{
    v.push(edge)
}

/// The edges of the cycle through the nodes `0 .. n`, where `n` is `nodes` taken
/// as an `i32`: node `x` has an edge to `(x + 1) % n`, in the order of `x`.
/// There are none where `n` is not positive.
pub open spec fn loop_graph_edges(nodes: usize) -> Seq<(i32, i32)> {
    let n = #[verifier::truncate] (nodes as i32);
    if n <= 0 {
        Seq::empty()
    } else {
        Seq::new(n as nat, |x: int| (x as i32, ((x + 1) % (n as int)) as i32))
    }
}

/// For a node count that fits in an `i32`, the cycle has exactly `nodes` edges,
/// and the edge at index `i` goes from `i` to `(i + 1) % nodes`.
pub proof fn law_loop_graph_edges(nodes: usize)
    requires
        nodes <= i32::MAX,
    ensures
        loop_graph_edges(nodes).len() == nodes,
        forall|i: int|
            0 <= i < nodes ==> #[trigger] loop_graph_edges(nodes)[i] == (i as i32, ((i + 1) % (
            nodes as int)) as i32),
{
    assert((#[verifier::truncate] (nodes as i32)) == nodes) by (bit_vector)
        requires
            nodes <= 0x7fff_ffffusize,
    ;
}

/// Builds the cycle graph on `nodes` nodes: the edges `(x, (x + 1) % nodes)` for
/// every `x` from `0` below `nodes`, with `nodes` cast to `i32` first.
pub fn loop_graph(nodes: usize) -> (res: boxcar::Vec<(i32, i32)>)
    ensures
        edges_of(res) == loop_graph_edges(nodes),
        nodes <= i32::MAX ==> edges_of(res).len() == nodes,
        nodes <= i32::MAX ==> forall|i: int|
            0 <= i < nodes ==> #[trigger] edges_of(res)[i] == (i as i32, ((i + 1) % (
            nodes as int)) as i32),
{
    proof {
        if nodes <= i32::MAX {
            law_loop_graph_edges(nodes);
        }
    }
    let mut res = new_edge_vec();
    let n: i32 = #[verifier::truncate] (nodes as i32);
    let mut x: i32 = 0;
    while x < n
        invariant
            n == #[verifier::truncate] (nodes as i32),
            0 <= x,
            x == 0 || x <= n,
            edges_of(res) == Seq::new(x as nat, |i: int| (i as i32, ((i + 1) % (n as int)) as i32)),
        decreases n - x,
    {
        push_edge(&mut res, (x, (x + 1) % n));
        x = x + 1;
    }
    assert(edges_of(res) =~= loop_graph_edges(nodes));
    res
}

} // verus!
