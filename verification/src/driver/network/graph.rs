use vstd::prelude::*;

verus! {

/// The graph of the privilege levels of a device. Its nodes are names of
/// levels, each held once; `adjacency[i]` holds the indices of the nodes
/// that node `i` is linked to.
pub struct PrivilegeGraph {
    /// The names of the nodes.
    pub names: Vec<String>,
    /// For each node, the indices of its neighbours.
    pub adjacency: Vec<Vec<usize>>,
}

impl PrivilegeGraph {
    /// Every node has its list of neighbours, no name is held twice, and
    /// every neighbour is a node.
    pub open spec fn well_formed(self) -> bool {
        &&& self.adjacency@.len() == self.names@.len()
        &&& self.names@.len() <= usize::MAX
        &&& forall|i: int, j: int|
            0 <= i < j < self.names@.len() ==> (#[trigger] self.names@[i])@ != (
            #[trigger] self.names@[j])@
        &&& forall|i: int, k: int|
            0 <= i < self.adjacency@.len() && 0 <= k < self.adjacency@[i]@.len()
                ==> #[trigger] self.adjacency@[i]@[k] < self.names@.len()
    }

    /// The graph has a node of this name.
    pub open spec fn has_node(self, name: Seq<char>) -> bool {
        exists|i: int| 0 <= i < self.names@.len() && (#[trigger] self.names@[i])@ == name
    }

    /// Node `i` lists node `j` among its neighbours.
    pub open spec fn linked(self, i: int, j: int) -> bool {
        &&& 0 <= i < self.adjacency@.len()
        &&& exists|k: int|
            0 <= k < self.adjacency@[i]@.len() && #[trigger] self.adjacency@[i]@[k] == j
    }

    /// The graph has an edge from the node named `a` to the node named `b`.
    pub open spec fn has_edge(self, a: Seq<char>, b: Seq<char>) -> bool {
        exists|i: int, j: int| #[trigger]
            self.linked(i, j) && self.names@[i]@ == a && self.names@[j]@ == b
    }

    /// A graph without nodes.
    pub fn new() -> (graph: Self)
        ensures
            graph.well_formed(),
            graph.names@.len() == 0,
    {
        PrivilegeGraph { names: Vec::new(), adjacency: Vec::new() }
    }

    /// The index of the node of this name, if there is one.
    pub fn find(&self, name: &str) -> (found: Option<usize>)
        requires
            self.well_formed(),
        ensures
            found.is_some() == self.has_node(name@),
            found matches Some(i) ==> i < self.names@.len() && self.names@[i as int]@ == name@,
    {
        let wanted = name.to_owned();
        let mut i: usize = 0;
        while i < self.names.len()
            invariant
                i <= self.names@.len(),
                wanted@ == name@,
                forall|j: int| 0 <= j < i ==> (#[trigger] self.names@[j])@ != name@,
            decreases self.names@.len() - i,
        {
            if self.names[i] == wanted {
                return Some(i);
            }
            i += 1;
        }
        None
    }

    /// Whether the graph has a node of this name.
    pub fn contains_key(&self, name: &str) -> (r: bool)
        requires
            self.well_formed(),
        ensures
            r == self.has_node(name@),
    {
        self.find(name).is_some()
    }

    /// The index of the node of this name, which is added where the graph
    /// does not have it yet. The links stay as they are.
    pub fn intern(&mut self, name: &str) -> (at: usize)
        requires
            old(self).well_formed(),
        ensures
            final(self).well_formed(),
            at < final(self).names@.len(),
            final(self).names@[at as int]@ == name@,
            old(self).names@.len() <= final(self).names@.len() <= old(self).names@.len() + 1,
            forall|i: int|
                0 <= i < old(self).names@.len() ==> #[trigger] final(self).names@[i] == old(
                    self,
                ).names@[i],
            forall|a: Seq<char>| #[trigger]
                final(self).has_node(a) <==> old(self).has_node(a) || a == name@,
            forall|i: int, j: int| #[trigger]
                final(self).linked(i, j) <==> old(self).linked(i, j),
            forall|a: Seq<char>, b: Seq<char>| #[trigger]
                final(self).has_edge(a, b) <==> old(self).has_edge(a, b),
    {
        match self.find(name) {
            Some(at) => at,
            None => {
                let at = self.names.len();
                self.names.push(name.to_owned());
                self.adjacency.push(Vec::new());
                let count: usize = self.names.len();
                proof {
                    assert forall|a: Seq<char>| #[trigger]
                        self.has_node(a) <==> old(self).has_node(a) || a == name@ by {
                        if old(self).has_node(a) {
                            let i = choose|i: int|
                                0 <= i < old(self).names@.len() && (#[trigger] old(
                                    self,
                                ).names@[i])@ == a;
                            assert(self.names@[i]@ == a);
                        }
                        if a == name@ {
                            assert(self.names@[at as int]@ == a);
                        }
                        if self.has_node(a) {
                            let i = choose|i: int|
                                0 <= i < self.names@.len() && (#[trigger] self.names@[i])@ == a;
                            if i < at {
                                assert(old(self).names@[i]@ == a);
                            }
                        }
                    }
                    assert forall|i: int, j: int| #[trigger]
                        self.linked(i, j) <==> old(self).linked(i, j) by {
                        if self.linked(i, j) {
                            if i == at {
                                assert(self.adjacency@[i]@.len() == 0);
                            } else {
                                assert(self.adjacency@[i] == old(self).adjacency@[i]);
                            }
                        }
                        if old(self).linked(i, j) {
                            assert(self.adjacency@[i] == old(self).adjacency@[i]);
                        }
                    }
                    assert forall|a: Seq<char>, b: Seq<char>| #[trigger]
                        self.has_edge(a, b) <==> old(self).has_edge(a, b) by {
                        if self.has_edge(a, b) {
                            let (i, j) = choose|i: int, j: int| #[trigger]
                                self.linked(i, j) && self.names@[i]@ == a && self.names@[j]@ == b;
                            assert(old(self).linked(i, j));
                            let k = choose|k: int|
                                0 <= k < old(self).adjacency@[i]@.len() && #[trigger] old(
                                    self,
                                ).adjacency@[i]@[k] == j;
                            assert(old(self).adjacency@[i]@[k] < old(self).names@.len());
                            assert(self.names@[i] == old(self).names@[i]);
                            assert(self.names@[j] == old(self).names@[j]);
                        }
                        if old(self).has_edge(a, b) {
                            let (i, j) = choose|i: int, j: int| #[trigger]
                                old(self).linked(i, j) && old(self).names@[i]@ == a && old(
                                    self,
                                ).names@[j]@ == b;
                            assert(self.linked(i, j));
                            let k = choose|k: int|
                                0 <= k < old(self).adjacency@[i]@.len() && #[trigger] old(
                                    self,
                                ).adjacency@[i]@[k] == j;
                            assert(old(self).adjacency@[i]@[k] < old(self).names@.len());
                            assert(self.names@[i] == old(self).names@[i]);
                            assert(self.names@[j] == old(self).names@[j]);
                        }
                    }
                }
                at
            },
        }
    }

    /// Whether node `i` lists node `j` among its neighbours.
    pub fn is_linked(&self, i: usize, j: usize) -> (r: bool)
        requires
            self.well_formed(),
            i < self.names@.len(),
            j < self.names@.len(),
        ensures
            r == self.linked(i as int, j as int),
    {
        let neighbours = &self.adjacency[i];
        let mut k: usize = 0;
        while k < neighbours.len()
            invariant
                i < self.adjacency@.len(),
                *neighbours == self.adjacency@[i as int],
                k <= neighbours@.len(),
                forall|t: int| 0 <= t < k ==> neighbours@[t] != j,
            decreases neighbours@.len() - k,
        {
            if neighbours[k] == j {
                assert(self.adjacency@[i as int]@[k as int] == j);
                return true;
            }
            k += 1;
        }
        false
    }

    /// Lists node `j` among the neighbours of node `i`, unless it is
    /// listed there already. Nothing else changes.
    pub fn link(&mut self, i: usize, j: usize)
        requires
            old(self).well_formed(),
            i < old(self).names@.len(),
            j < old(self).names@.len(),
        ensures
            final(self).well_formed(),
            final(self).names == old(self).names,
            forall|x: int, y: int| #[trigger]
                final(self).linked(x, y) <==> old(self).linked(x, y) || (x == i && y == j),
            forall|a: Seq<char>, b: Seq<char>| #[trigger]
                final(self).has_edge(a, b) <==> old(self).has_edge(a, b) || (a == old(
                    self,
                ).names@[i as int]@ && b == old(self).names@[j as int]@),
    {
        if self.is_linked(i, j) {
            proof {
                self.lemma_edges_after_link(*old(self), i as int, j as int);
            }
            return ;
        }
        let mut neighbours: Vec<usize> = Vec::new();
        let mut k: usize = 0;
        while k < self.adjacency[i].len()
            invariant
                self.well_formed(),
                i < self.names@.len(),
                k <= self.adjacency@[i as int]@.len(),
                neighbours@ == self.adjacency@[i as int]@.take(k as int),
            decreases self.adjacency@[i as int]@.len() - k,
        {
            neighbours.push(self.adjacency[i][k]);
            assert(neighbours@ =~= self.adjacency@[i as int]@.take(k + 1));
            k += 1;
        }
        assert(neighbours@ =~= self.adjacency@[i as int]@);
        neighbours.push(j);
        self.adjacency[i] = neighbours;
        proof {
            assert forall|x: int, y: int| #[trigger]
                self.linked(x, y) <==> old(self).linked(x, y) || (x == i && y == j) by {
                if 0 <= x < self.adjacency@.len() {
                    if x == i {
                        let before = old(self).adjacency@[x]@;
                        let after = self.adjacency@[x]@;
                        assert(after == before.push(j));
                        if self.linked(x, y) {
                            let k = choose|k: int|
                                0 <= k < after.len() && #[trigger] self.adjacency@[x]@[k] == y;
                            if k < before.len() {
                                assert(old(self).adjacency@[x]@[k] == y);
                            }
                        }
                        if old(self).linked(x, y) {
                            let k = choose|k: int|
                                0 <= k < before.len() && #[trigger] old(self).adjacency@[x]@[k]
                                    == y;
                            assert(self.adjacency@[x]@[k] == y);
                        }
                        if y == j {
                            assert(self.adjacency@[x]@[before.len() as int] == j);
                        }
                    } else {
                        assert(self.adjacency@[x] == old(self).adjacency@[x]);
                    }
                }
            }
            assert forall|x: int, k: int|
                0 <= x < self.adjacency@.len() && 0 <= k < self.adjacency@[x]@.len()
                    implies #[trigger] self.adjacency@[x]@[k] < self.names@.len() by {
                if x == i {
                    if k < old(self).adjacency@[x]@.len() {
                        assert(self.adjacency@[x]@[k] == old(self).adjacency@[x]@[k]);
                    }
                } else {
                    assert(self.adjacency@[x] == old(self).adjacency@[x]);
                }
            }
            self.lemma_edges_after_link(*old(self), i as int, j as int);
        }
    }

    /// The edges of a graph that has, beside the links of `before`, the
    /// link from node `i` to node `j`.
    proof fn lemma_edges_after_link(self, before: Self, i: int, j: int)
        requires
            self.names == before.names,
            0 <= i < self.names@.len(),
            0 <= j < self.names@.len(),
            self.adjacency@.len() == self.names@.len(),
            forall|x: int, y: int| #[trigger]
                self.linked(x, y) <==> before.linked(x, y) || (x == i && y == j),
        ensures
            forall|a: Seq<char>, b: Seq<char>| #[trigger]
                self.has_edge(a, b) <==> before.has_edge(a, b) || (a == before.names@[i]@ && b
                    == before.names@[j]@),
    {
        assert forall|a: Seq<char>, b: Seq<char>| #[trigger]
            self.has_edge(a, b) <==> before.has_edge(a, b) || (a == before.names@[i]@ && b
                == before.names@[j]@) by {
            if self.has_edge(a, b) {
                let (x, y) = choose|x: int, y: int| #[trigger]
                    self.linked(x, y) && self.names@[x]@ == a && self.names@[y]@ == b;
                if before.linked(x, y) {
                    assert(before.has_edge(a, b));
                }
            }
            if before.has_edge(a, b) {
                let (x, y) = choose|x: int, y: int| #[trigger]
                    before.linked(x, y) && before.names@[x]@ == a && before.names@[y]@ == b;
                assert(self.linked(x, y));
            }
            if a == before.names@[i]@ && b == before.names@[j]@ {
                assert(self.linked(i, j));
            }
        }
    }
}

/// No more distinct numbers below `n` than `n`.
pub proof fn lemma_distinct_below(s: Seq<usize>, n: nat)
    requires
        s.no_duplicates(),
        forall|i: int| 0 <= i < s.len() ==> #[trigger] s[i] < n,
    ensures
        s.len() <= n,
    decreases n,
{
    if s.len() > 0 {
        if n == 0 {
            assert(s[0] < n);
        } else if exists|i: int| 0 <= i < s.len() && #[trigger] s[i] == n - 1 {
            let at = choose|i: int| 0 <= i < s.len() && #[trigger] s[i] == n - 1;
            let rest = s.remove(at);
            assert forall|i: int| 0 <= i < rest.len() implies #[trigger] rest[i] < n - 1 by {
                if i < at {
                    assert(rest[i] == s[i]);
                } else {
                    assert(rest[i] == s[i + 1]);
                }
            }
            assert forall|i: int, j: int| 0 <= i < rest.len() && 0 <= j < rest.len() && i != j implies rest[i]
                != rest[j] by {
                let from_i = if i < at {
                    i
                } else {
                    i + 1
                };
                let from_j = if j < at {
                    j
                } else {
                    j + 1
                };
                assert(rest[i] == s[from_i]);
                assert(rest[j] == s[from_j]);
            }
            lemma_distinct_below(rest, (n - 1) as nat);
        } else {
            lemma_distinct_below(s, (n - 1) as nat);
        }
    }
}

/// Whether `path` holds the node `x`.
pub fn holds(path: &Vec<usize>, x: usize) -> (r: bool)
    ensures
        r == path@.contains(x),
{
    let mut i: usize = 0;
    while i < path.len()
        invariant
            i <= path@.len(),
            forall|j: int| 0 <= j < i ==> path@[j] != x,
        decreases path@.len() - i,
    {
        if path[i] == x {
            return true;
        }
        i += 1;
    }
    false
}

impl PrivilegeGraph {
    /// Each node of `path` is linked to the next.
    pub open spec fn is_walk(self, path: Seq<usize>) -> bool {
        forall|k: int|
            0 <= k < path.len() - 1 ==> #[trigger] self.linked(path[k] as int, path[k + 1] as int)
    }

    /// `way` leads from node `from` to node `to` along links, and passes
    /// no node twice.
    pub open spec fn is_way(self, way: Seq<usize>, from: usize, to: usize) -> bool {
        &&& way.len() > 0
        &&& way[0] == from
        &&& way.last() == to
        &&& forall|k: int| 0 <= k < way.len() ==> #[trigger] way[k] < self.names@.len()
        &&& self.is_walk(way)
        &&& way.no_duplicates()
    }

    /// There is a way from `from` to `to` that passes none of the nodes of
    /// `avoid`.
    pub open spec fn reachable_avoiding(self, from: usize, to: usize, avoid: Seq<usize>) -> bool {
        exists|way: Seq<usize>| #[trigger]
            self.is_way(way, from, to) && forall|k: int|
                0 <= k < way.len() ==> !avoid.contains(#[trigger] way[k])
    }

    /// Searches depth first for a way from `current` to `target` that
    /// passes none of the nodes of `steps`, the way that led to `current`.
    /// Where there is one, `steps` followed by such a way comes back;
    /// where there is none, nothing comes back.
    pub fn search(&self, current: usize, target: usize, steps: &Vec<usize>) -> (r: Vec<usize>)
        requires
            self.well_formed(),
            current < self.names@.len(),
            target < self.names@.len(),
            steps@.no_duplicates(),
            forall|k: int| 0 <= k < steps@.len() ==> #[trigger] steps@[k] < self.names@.len(),
            !steps@.contains(current),
        ensures
            r@.len() == 0 <==> !self.reachable_avoiding(current, target, steps@),
            r@.len() > 0 ==> {
                &&& r@.len() > steps@.len()
                &&& r@.take(steps@.len() as int) == steps@
                &&& self.is_way(r@.skip(steps@.len() as int), current, target)
                &&& r@.no_duplicates()
            },
        decreases self.names@.len() - steps@.len(),
    {
        let mut working: Vec<usize> = Vec::new();
        let mut c: usize = 0;
        while c < steps.len()
            invariant
                c <= steps@.len(),
                working@ == steps@.take(c as int),
            decreases steps@.len() - c,
        {
            working.push(steps[c]);
            assert(working@ =~= steps@.take(c + 1));
            c += 1;
        }
        assert(working@ =~= steps@);
        working.push(current);
        proof {
            assert(working@ == steps@.push(current));
            assert(working@.no_duplicates()) by {
                assert forall|i: int, j: int|
                    0 <= i < working@.len() && 0 <= j < working@.len() && i != j implies working@[i]
                    != working@[j] by {
                    if i < steps@.len() && j < steps@.len() {
                        assert(steps@[i] != steps@[j]);
                    } else if i < steps@.len() {
                        assert(steps@.contains(steps@[i]));
                    } else if j < steps@.len() {
                        assert(steps@.contains(steps@[j]));
                    }
                }
            }
            lemma_distinct_below(working@, self.names@.len());
        }
        if current == target {
            proof {
                let way = working@.skip(steps@.len() as int);
                assert(way =~= seq![current]);
                assert(working@.take(steps@.len() as int) =~= steps@);
                assert(self.is_way(way, current, target));
                assert forall|k: int| 0 <= k < way.len() implies !steps@.contains(#[trigger] way[k]) by {}
            }
            return working;
        }
        let neighbours = &self.adjacency[current];
        let mut k: usize = 0;
        while k < neighbours.len()
            invariant
                self.well_formed(),
                current < self.names@.len(),
                target < self.names@.len(),
                *neighbours == self.adjacency@[current as int],
                k <= neighbours@.len(),
                working@ == steps@.push(current),
                working@.no_duplicates(),
                working@.len() <= self.names@.len(),
                forall|t: int| 0 <= t < working@.len() ==> #[trigger] working@[t] < self.names@.len(),
                forall|t: int|
                    0 <= t < k && !working@.contains(#[trigger] neighbours@[t])
                        ==> !self.reachable_avoiding(neighbours@[t], target, working@),
            decreases neighbours@.len() - k,
        {
            let next = neighbours[k];
            assert(self.adjacency@[current as int]@[k as int] < self.names@.len());
            if !holds(&working, next) {
                let found = self.search(next, target, &working);
                if found.len() > 0 {
                    proof {
                        let from = steps@.len() as int;
                        let rest = found@.skip(working@.len() as int);
                        let way = found@.skip(from);
                        assert(found@.take(working@.len() as int) == working@);
                        assert(way =~= seq![current] + rest) by {
                            assert(found@[from] == working@[from]);
                        }
                        assert(found@.take(from) =~= steps@) by {
                            assert forall|t: int| 0 <= t < from implies found@.take(from)[t]
                                == steps@[t] by {
                                assert(found@.take(working@.len() as int)[t] == working@[t]);
                            }
                        }
                        assert(self.is_way(way, current, target)) by {
                            assert(self.linked(current as int, next as int));
                            assert forall|t: int| 0 <= t < way.len() - 1 implies #[trigger] self.linked(
                                way[t] as int,
                                way[t + 1] as int,
                            ) by {
                                if t > 0 {
                                    assert(self.linked(rest[t - 1] as int, rest[t - 1 + 1] as int));
                                }
                            }
                            assert forall|i: int, j: int|
                                0 <= i < way.len() && 0 <= j < way.len() && i != j implies way[i]
                                != way[j] by {
                                assert(way[i] == found@[from + i]);
                                assert(way[j] == found@[from + j]);
                            }
                            assert forall|t: int| 0 <= t < way.len() implies #[trigger] way[t]
                                < self.names@.len() by {
                                if t > 0 {
                                    assert(way[t] == rest[t - 1]);
                                }
                            }
                        }
                        assert forall|t: int| 0 <= t < way.len() implies !steps@.contains(
                            #[trigger] way[t],
                        ) by {
                            if steps@.contains(way[t]) {
                                let at = choose|at: int| 0 <= at < steps@.len() && steps@[at] == way[t];
                                assert(found@[at] == found@.take(from)[at]);
                                assert(found@[from + t] == way[t]);
                            }
                        }
                    }
                    return found;
                }
            }
            k += 1;
        }
        proof {
            if self.reachable_avoiding(current, target, steps@) {
                let way = choose|way: Seq<usize>| #[trigger]
                    self.is_way(way, current, target) && forall|t: int|
                        0 <= t < way.len() ==> !steps@.contains(#[trigger] way[t]);
                assert(way.len() >= 2);
                let next = way[1];
                assert(self.linked(way[0int] as int, way[0int + 1] as int));
                let t = choose|t: int|
                    0 <= t < self.adjacency@[current as int]@.len() && #[trigger] self.adjacency@[current as int]@[t]
                        == next as int;
                let rest = way.skip(1);
                assert(!working@.contains(next)) by {
                    if working@.contains(next) {
                        let at = choose|at: int| 0 <= at < working@.len() && working@[at] == next;
                        if at < steps@.len() {
                            assert(steps@.contains(way[1]));
                        } else {
                            assert(way[0] != way[1]);
                        }
                    }
                }
                assert(self.is_way(rest, next, target)) by {
                    assert forall|i: int| 0 <= i < rest.len() - 1 implies #[trigger] self.linked(
                        rest[i] as int,
                        rest[i + 1] as int,
                    ) by {
                        assert(self.linked(way[i + 1] as int, way[i + 1 + 1] as int));
                    }
                    assert forall|i: int, j: int|
                        0 <= i < rest.len() && 0 <= j < rest.len() && i != j implies rest[i]
                        != rest[j] by {
                        assert(way[i + 1] != way[j + 1]);
                    }
                    assert forall|i: int| 0 <= i < rest.len() implies #[trigger] rest[i]
                        < self.names@.len() by {
                        assert(way[i + 1] < self.names@.len());
                    }
                }
                assert forall|i: int| 0 <= i < rest.len() implies !working@.contains(
                    #[trigger] rest[i],
                ) by {
                    if working@.contains(rest[i]) {
                        let at = choose|at: int| 0 <= at < working@.len() && working@[at] == rest[i];
                        if at < steps@.len() {
                            assert(steps@.contains(way[i + 1]));
                        } else {
                            assert(way[0] != way[i + 1]);
                        }
                    }
                }
                assert(self.reachable_avoiding(next, target, working@));
                assert(neighbours@[t] == next);
            }
        }
        Vec::new()
    }
}

/// The names `path` lead from `from` to `to` along edges of the graph, and
/// no name comes twice.
pub open spec fn is_named_path(
    graph: PrivilegeGraph,
    path: Seq<Seq<char>>,
    from: Seq<char>,
    to: Seq<char>,
) -> bool {
    &&& path.len() > 0
    &&& path[0] == from
    &&& path.last() == to
    &&& forall|k: int| 0 <= k < path.len() - 1 ==> graph.has_edge(#[trigger] path[k], path[k + 1])
    &&& path.no_duplicates()
}

/// The graph connects the names `from` and `to`. Every name is connected
/// with itself.
pub open spec fn connects(graph: PrivilegeGraph, from: Seq<char>, to: Seq<char>) -> bool {
    exists|path: Seq<Seq<char>>| is_named_path(graph, path, from, to)
}

/// The names of the nodes of a way.
pub open spec fn names_along(graph: PrivilegeGraph, way: Seq<usize>) -> Seq<Seq<char>> {
    way.map_values(|i: usize| graph.names@[i as int]@)
}

impl PrivilegeGraph {
    /// The index of the node named `name`.
    pub open spec fn index_named(self, name: Seq<char>) -> usize {
        choose|i: usize| i < self.names@.len() && (#[trigger] self.names@[i as int])@ == name
    }

    /// The names along a way are a path of names.
    pub proof fn lemma_way_is_named_path(self, way: Seq<usize>, from: usize, to: usize)
        requires
            self.well_formed(),
            self.is_way(way, from, to),
        ensures
            is_named_path(
                self,
                names_along(self, way),
                self.names@[from as int]@,
                self.names@[to as int]@,
            ),
    {
        let path = names_along(self, way);
        assert forall|k: int| 0 <= k < path.len() - 1 implies self.has_edge(
            #[trigger] path[k],
            path[k + 1],
        ) by {
            assert(self.linked(way[k] as int, way[k + 1] as int));
        }
        assert forall|i: int, j: int| 0 <= i < path.len() && 0 <= j < path.len() && i != j implies path[i]
            != path[j] by {
            assert(way[i] != way[j]);
            assert(way[i] < self.names@.len());
            assert(way[j] < self.names@.len());
            if way[i] < way[j] {
                assert(self.names@[way[i] as int]@ != self.names@[way[j] as int]@);
            } else {
                assert(self.names@[way[j] as int]@ != self.names@[way[i] as int]@);
            }
        }
    }

    /// The node of a name is the only node of that name.
    pub proof fn lemma_index_is_unique(self, name: Seq<char>, i: usize)
        requires
            self.well_formed(),
            i < self.names@.len(),
            self.names@[i as int]@ == name,
        ensures
            self.index_named(name) == i,
    {
        let at = self.index_named(name);
        assert(self.names@[i as int]@ == name);
        if at < i {
            assert(self.names@[at as int]@ != self.names@[i as int]@);
        } else if i < at {
            assert(self.names@[i as int]@ != self.names@[at as int]@);
        }
    }

    /// Both ends of an edge are nodes, and their nodes are linked.
    pub proof fn lemma_edge_ends(self, a: Seq<char>, b: Seq<char>)
        requires
            self.well_formed(),
            self.has_edge(a, b),
        ensures
            self.index_named(a) < self.names@.len(),
            self.index_named(b) < self.names@.len(),
            self.names@[self.index_named(a) as int]@ == a,
            self.names@[self.index_named(b) as int]@ == b,
            self.linked(self.index_named(a) as int, self.index_named(b) as int),
    {
        let (i, j) = choose|i: int, j: int| #[trigger]
            self.linked(i, j) && self.names@[i]@ == a && self.names@[j]@ == b;
        let k = choose|k: int|
            0 <= k < self.adjacency@[i]@.len() && #[trigger] self.adjacency@[i]@[k] == j;
        assert(self.adjacency@[i]@[k] < self.names@.len());
        self.lemma_index_is_unique(a, i as usize);
        self.lemma_index_is_unique(b, j as usize);
    }

    /// A path of at least two names is the names along a way.
    pub proof fn lemma_named_path_is_way(self, path: Seq<Seq<char>>) -> (way: Seq<usize>)
        requires
            self.well_formed(),
            path.len() >= 2,
            is_named_path(self, path, path[0], path.last()),
        ensures
            self.is_way(way, self.index_named(path[0]), self.index_named(path.last())),
            self.index_named(path[0]) < self.names@.len(),
            self.index_named(path.last()) < self.names@.len(),
            self.names@[self.index_named(path[0]) as int]@ == path[0],
            self.names@[self.index_named(path.last()) as int]@ == path.last(),
    {
        let way = Seq::new(path.len(), |k: int| self.index_named(path[k]));
        assert forall|k: int| 0 <= k < way.len() - 1 implies #[trigger] self.linked(
            way[k] as int,
            way[k + 1] as int,
        ) by {
            self.lemma_edge_ends(path[k], path[k + 1]);
        }
        assert forall|k: int| 0 <= k < way.len() implies #[trigger] way[k] < self.names@.len()
            && self.names@[way[k] as int]@ == path[k] by {
            if k < path.len() - 1 {
                self.lemma_edge_ends(path[k], path[k + 1]);
            } else {
                self.lemma_edge_ends(path[k - 1], path[k - 1 + 1]);
            }
        }
        assert forall|i: int, j: int| 0 <= i < way.len() && 0 <= j < way.len() && i != j implies way[i]
            != way[j] by {
            assert(path[i] != path[j]);
            assert(self.names@[way[i] as int]@ == path[i]);
            assert(self.names@[way[j] as int]@ == path[j]);
        }
        assert(way[0] == self.index_named(path[0]));
        assert(way.last() == self.index_named(path.last()));
        assert(self.names@[way[0] as int]@ == path[0]);
        assert(self.names@[way[way.len() - 1] as int]@ == path[path.len() - 1]);
        way
    }

    /// The names along the way from the node named `current` to the node
    /// named `target` that a depth-first search finds first. A name leads
    /// to itself. Nothing comes back if and only if the graph does not
    /// connect the two names.
    pub fn path_between(&self, current: &str, target: &str) -> (steps: Vec<String>)
        requires
            self.well_formed(),
        ensures
            steps@.len() == 0 <==> !connects(*self, current@, target@),
            steps@.len() > 0 ==> is_named_path(
                *self,
                crate::driver::generic::driver::texts(steps@),
                current@,
                target@,
            ),
    {
        let start = current.to_owned();
        let end = target.to_owned();
        let mut steps: Vec<String> = Vec::new();
        if start == end {
            steps.push(start);
            proof {
                let path = crate::driver::generic::driver::texts(steps@);
                assert(path =~= seq![current@]);
                assert(is_named_path(*self, path, current@, target@));
            }
            return steps;
        }
        let way = match (self.find(current), self.find(target)) {
            (Some(from), Some(to)) => {
                let none: Vec<usize> = Vec::new();
                let way = self.search(from, to, &none);
                proof {
                    assert(way@.skip(0) =~= way@);
                    if way@.len() > 0 {
                        self.lemma_way_is_named_path(way@, from, to);
                    } else if connects(*self, current@, target@) {
                        let path = choose|path: Seq<Seq<char>>|
                            is_named_path(*self, path, current@, target@);
                        let found = self.lemma_named_path_is_way(path);
                        self.lemma_index_is_unique(current@, from);
                        self.lemma_index_is_unique(target@, to);
                        assert(self.is_way(found, from, to));
                        assert(self.reachable_avoiding(from, to, none@));
                    }
                }
                way
            },
            _ => {
                proof {
                    if connects(*self, current@, target@) {
                        let path = choose|path: Seq<Seq<char>>|
                            is_named_path(*self, path, current@, target@);
                        let found = self.lemma_named_path_is_way(path);
                    }
                }
                Vec::new()
            },
        };
        let mut k: usize = 0;
        while k < way.len()
            invariant
                self.well_formed(),
                k <= way@.len(),
                steps@.len() == k,
                forall|t: int| 0 <= t < way@.len() ==> #[trigger] way@[t] < self.names@.len(),
                crate::driver::generic::driver::texts(steps@) == names_along(*self, way@.take(k as int)),
            decreases way@.len() - k,
        {
            let ghost before = steps@;
            steps.push(self.names[way[k]].clone());
            proof {
                let named = crate::driver::generic::driver::texts(steps@);
                let along = names_along(*self, way@.take(k + 1));
                assert forall|t: int| 0 <= t < named.len() implies named[t] == along[t] by {
                    if t < k {
                        assert(crate::driver::generic::driver::texts(before)[t] == names_along(
                            *self,
                            way@.take(k as int),
                        )[t]);
                        assert(steps@[t] == before[t]);
                    }
                }
                assert(named =~= along);
            }
            k += 1;
        }
        assert(way@.take(way@.len() as int) =~= way@);
        steps
    }
}

} // verus!
