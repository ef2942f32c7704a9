//! A graph of maze nodes, kept as an adjacency matrix beside per-node adjacency lists.

use vstd::prelude::*;

verus! {

/// A graph whose nodes are numbered in the order they were added.
#[derive(Debug)]
pub struct Graph<T> {
    adjacency_list: Vec<Vec<usize>>,
    adjacency_matrix: Vec<Vec<bool>>,
    nodes: Vec<T>,
}

/// `n` rows of `n` entries, none of them an edge.
pub open spec fn edgeless(matrix: Seq<Seq<bool>>, n: nat) -> bool {
    &&& matrix.len() == n
    &&& forall|i: int| 0 <= i < n ==> (#[trigger] matrix[i]).len() == n
    &&& forall|i: int, j: int| 0 <= i < n && 0 <= j < n ==> !matrix[i][j]
}

impl<T> Graph<T> {
    /// The nodes, in the order they were added.
    pub closed spec fn spec_nodes(&self) -> Seq<T> {
        self.nodes@
    }

    /// The adjacency matrix.
    pub closed spec fn spec_matrix(&self) -> Seq<Seq<bool>> {
        self.adjacency_matrix@.map_values(|row: Vec<bool>| row@)
    }

    /// The adjacency lists, one per node.
    pub closed spec fn spec_lists(&self) -> Seq<Seq<usize>> {
        self.adjacency_list@.map_values(|l: Vec<usize>| l@)
    }

    /// One adjacency list and one row and column of the matrix per node; no
    /// operation adds an edge.
    pub open spec fn wf(&self) -> bool {
        &&& edgeless(self.spec_matrix(), self.spec_nodes().len())
        &&& self.spec_lists().len() == self.spec_nodes().len()
        &&& forall|i: int| 0 <= i < self.spec_lists().len() ==> (#[trigger] self.spec_lists()[i]).len() == 0
    }

    /// A graph without nodes.
    pub fn new() -> (r: Self)
        ensures
            r.wf(),
            r.spec_nodes() == Seq::<T>::empty(),
    {
        let r = Graph { adjacency_list: Vec::new(), adjacency_matrix: Vec::new(), nodes: Vec::new() };
        assert(r.spec_matrix() =~= Seq::<Seq<bool>>::empty());
        assert(r.spec_lists() =~= Seq::<Seq<usize>>::empty());
        r
    }

    /// The number of nodes.
    pub fn size(&self) -> (r: usize)
        ensures
            r == self.spec_nodes().len(),
    {
        self.nodes.len()
    }

    /// Adds `new_node`, unconnected, as the last node.
    pub fn add_node(&mut self, new_node: T)
        requires
            old(self).wf(),
            old(self).spec_nodes().len() < usize::MAX,
        ensures
            final(self).wf(),
            final(self).spec_nodes() == old(self).spec_nodes().push(new_node),
    {
        self.nodes.push(new_node);
        let n = self.nodes.len();
        let mut matrix: Vec<Vec<bool>> = Vec::new();
        let mut i: usize = 0;
        while i < n
            invariant
                i <= n,
                n == self.nodes@.len(),
                matrix@.len() == i,
                forall|a: int| 0 <= a < i ==> (#[trigger] matrix@[a])@.len() == n,
                forall|a: int, b: int| 0 <= a < i && 0 <= b < n ==> !matrix@[a]@[b],
            decreases n - i,
        {
            let mut row: Vec<bool> = Vec::new();
            let mut j: usize = 0;
            while j < n
                invariant
                    j <= n,
                    row@.len() == j,
                    forall|b: int| 0 <= b < j ==> !row@[b],
                decreases n - j,
            {
                row.push(false);
                j = j + 1;
            }
            matrix.push(row);
            i = i + 1;
        }
        self.adjacency_matrix = matrix;
        self.adjacency_list.push(Vec::new());
        proof {
            let m = self.spec_matrix();
            assert forall|a: int| 0 <= a < n implies (#[trigger] m[a]).len() == n by {
                assert(m[a] == self.adjacency_matrix@[a]@);
            }
            assert forall|a: int, b: int| 0 <= a < n && 0 <= b < n implies !m[a][b] by {
                assert(m[a] == self.adjacency_matrix@[a]@);
            }
            let l = self.spec_lists();
            assert forall|a: int| 0 <= a < l.len() implies (#[trigger] l[a]).len() == 0 by {
                if a < l.len() - 1 {
                    assert(l[a] == old(self).spec_lists()[a]);
                }
            }
        }
    }

    /// Node `index`, or `None` past the last node.
    pub fn get_node(&self, index: usize) -> (r: Option<&T>)
        ensures
            index < self.spec_nodes().len() ==> r == Some(&self.spec_nodes()[index as int]),
            index >= self.spec_nodes().len() ==> r.is_none(),
    {
        if index < self.nodes.len() {
            Some(&self.nodes[index])
        } else {
            None
        }
    }
}

} // verus!
