use vstd::prelude::*;

verus! {

/// The view of a node's data as the iterator yields it.
pub open spec fn node_text(node: Option<String>) -> Option<Seq<char>> {
    match node {
        Some(s) => Some(s@),
        None => None,
    }
}

/// A string list of the engine (`mbSlist`), read in chain order: one entry per
/// node, its C string, or nothing where the node's data pointer is null.
pub struct Slist {
    nodes: Vec<Option<String>>,
}

impl View for Slist {
    type V = Seq<Option<Seq<char>>>;

    closed spec fn view(&self) -> Seq<Option<Seq<char>>> {
        self.nodes@.map_values(|n: Option<String>| node_text(n))
    }
}

/// One step of the iterator over `nodes` standing at node `current`: the node
/// it moves to and what it yields. A node with data yields it; one without
/// data yields an empty string, except the last, where the iteration ends
/// without moving.
pub open spec fn slist_step(nodes: Seq<Option<Seq<char>>>, current: nat) -> (nat, Option<Seq<char>>) {
    if current >= nodes.len() {
        (current, None)
    } else {
        match nodes[current as int] {
            Some(d) => ((current + 1) as nat, Some(d)),
            None => if current + 1 < nodes.len() {
                ((current + 1) as nat, Some(Seq::empty()))
            } else {
                (current, None)
            },
        }
    }
}

/// What `k` successive steps from node `current` yield.
pub open spec fn slist_run(nodes: Seq<Option<Seq<char>>>, current: nat, k: nat) -> Seq<
    Option<Seq<char>>,
>
    decreases k,
{
    if k == 0 {
        Seq::empty()
    } else {
        let (next, out) = slist_step(nodes, current);
        seq![out] + slist_run(nodes, next, (k - 1) as nat)
    }
}

impl Slist {
    /// A list with the given nodes, in chain order.
    pub fn from_nodes(nodes: Vec<Option<String>>) -> (r: Self)
        ensures
            r@ == nodes@.map_values(|n: Option<String>| node_text(n)),
    {
        Slist { nodes }
    }

    /// The number of nodes.
    pub fn len(&self) -> (r: usize)
        ensures
            r == self@.len(),
    {
        self.nodes.len()
    }

    /// The data of every node, in order, for a list whose nodes all hold data.
    pub fn to_strings(&self) -> (r: Vec<String>)
        requires
            forall|i: int| 0 <= i < self@.len() ==> #[trigger] self@[i] is Some,
        ensures
            r@.len() == self@.len(),
            forall|i: int| 0 <= i < r@.len() ==> self@[i] == Some(#[trigger] r@[i]@),
    {
        let mut r: Vec<String> = Vec::new();
        let mut i: usize = 0;
        while i < self.nodes.len()
            invariant
                i <= self.nodes@.len(),
                self@ == self.nodes@.map_values(|n: Option<String>| node_text(n)),
                forall|j: int| 0 <= j < self@.len() ==> #[trigger] self@[j] is Some,
                r@.len() == i,
                forall|j: int| 0 <= j < i ==> self@[j] == Some(#[trigger] r@[j]@),
            decreases self.nodes@.len() - i,
        {
            assert(self@[i as int] is Some);
            match &self.nodes[i] {
                Some(s) => r.push(s.clone()),
                None => {},
            }
            i = i + 1;
        }
        r
    }

    /// An iterator over the list, standing at its first node.
    pub fn into_iter(self) -> (r: SlintIter)
        ensures
            r.nodes() == self@,
            r.current() == 0,
            r.wf(),
    {
        SlintIter { nodes: self.nodes, current: 0 }
    }
}

/// Iterator over a [`Slist`].
pub struct SlintIter {
    nodes: Vec<Option<String>>,
    current: usize,
}

impl SlintIter {
    /// The nodes iterated over.
    pub closed spec fn nodes(&self) -> Seq<Option<Seq<char>>> {
        self.nodes@.map_values(|n: Option<String>| node_text(n))
    }

    /// The node the iterator stands at; the list's length once it has left the
    /// last node.
    pub closed spec fn current(&self) -> nat {
        self.current as nat
    }

    /// The iterator never stands past the end of its list.
    pub closed spec fn wf(&self) -> bool {
        self.current <= self.nodes@.len()
    }

    /// Yields the data of the current node and moves on, as [`slist_step`] says.
    pub fn next(&mut self) -> (r: Option<String>)
        requires
            old(self).wf(),
        ensures
            final(self).wf(),
            final(self).nodes() == old(self).nodes(),
            (final(self).current(), node_text(r)) == slist_step(old(self).nodes(), old(self).current()),
    {
        if self.current >= self.nodes.len() {
            None
        } else {
            let last = self.current + 1 >= self.nodes.len();
            match &self.nodes[self.current] {
                Some(data) => {
                    let data = data.clone();
                    self.current = self.current + 1;
                    Some(data)
                },
                None => {
                    if !last {
                        self.current = self.current + 1;
                        Some(String::new())
                    } else {
                        None
                    }
                },
            }
        }
    }
}

/// Iterating a list whose nodes all hold data, from its first node, yields
/// the nodes' data in order, then ends.
pub proof fn lemma_slist_yields_in_order(nodes: Seq<Option<Seq<char>>>)
    requires
        forall|i: int| 0 <= i < nodes.len() ==> #[trigger] nodes[i] is Some,
    ensures
        slist_run(nodes, 0, nodes.len() + 1) == nodes + seq![None::<Seq<char>>],
{
    lemma_slist_run_from(nodes, 0);
    assert(nodes.skip(0) =~= nodes);
}

/// From node `current`, the remaining nodes are yielded in order, then the end.
proof fn lemma_slist_run_from(nodes: Seq<Option<Seq<char>>>, current: nat)
    requires
        forall|i: int| 0 <= i < nodes.len() ==> #[trigger] nodes[i] is Some,
        current <= nodes.len(),
    ensures
        slist_run(nodes, current, (nodes.len() - current + 1) as nat) == nodes.skip(
            current as int,
        ) + seq![None::<Seq<char>>],
    decreases nodes.len() - current,
{
    if current == nodes.len() {
        assert(nodes.skip(current as int) =~= Seq::<Option<Seq<char>>>::empty());
        assert(slist_run(nodes, current, 0) =~= Seq::<Option<Seq<char>>>::empty());
        assert(slist_run(nodes, current, 1) =~= seq![None::<Seq<char>>]);
    } else {
        assert(nodes[current as int] is Some);
        lemma_slist_run_from(nodes, current + 1);
        assert(nodes.skip(current as int) =~= seq![nodes[current as int]] + nodes.skip(
            current + 1 as int,
        ));
    }
}

/// A node without data yields an empty string and the walk moves on, except
/// at the last node, where the walk ends there; a node with data yields it;
/// past the end nothing is yielded and the walk stays.
pub proof fn lemma_slist_step_cases(nodes: Seq<Option<Seq<char>>>, current: nat)
    ensures
        current >= nodes.len() ==> slist_step(nodes, current) == (current, None::<Seq<char>>),
        current < nodes.len() ==> (nodes[current as int] matches Some(d) ==> slist_step(
            nodes,
            current,
        ) == ((current + 1) as nat, Some(d))),
        current + 1 < nodes.len() && nodes[current as int] is None ==> slist_step(nodes, current)
            == ((current + 1) as nat, Some(Seq::<char>::empty())),
        current + 1 == nodes.len() && nodes[current as int] is None ==> slist_step(
            nodes,
            current,
        ) == (current, None::<Seq<char>>),
{
}

} // verus!
