use infer_base::graph::loop_graph;

fn edges(v: &boxcar::Vec<(i32, i32)>) -> Vec<(i32, i32)> {
   v.iter().copied().collect()
}

#[test]
fn loop_graph_closes_the_cycle() {
   let g = loop_graph(3);
   assert_eq!(edges(&g), vec![(0, 1), (1, 2), (2, 0)]);
}

#[test]
fn loop_graph_of_one_node_is_a_self_loop() {
   assert_eq!(edges(&loop_graph(1)), vec![(0, 0)]);
}

#[test]
fn loop_graph_of_no_node_is_empty() {
   assert_eq!(loop_graph(0).len(), 0);
}

#[test]
fn loop_graph_counts_edges() {
   let g = loop_graph(1000);
   assert_eq!(g.len(), 1000);
   assert_eq!(g.get(999), Some(&(999, 0)));
   assert_eq!(g.get(500), Some(&(500, 501)));
}

#[test]
fn loop_graph_truncates_the_node_count() {
   let nodes: u64 = (1u64 << 32) + 2;
   if usize::BITS == 64 {
      assert_eq!(edges(&loop_graph(nodes as usize)), vec![(0, 1), (1, 0)]);
   }
   let negative: u64 = 0xffff_ffff;
   if usize::BITS == 64 {
      assert_eq!(loop_graph(negative as usize).len(), 0);
   }
}
