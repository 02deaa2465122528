//! Iteration over XML trees: the children of a node from either end, and
//! the ancestors of a node. Nodes live in an [`XmlTree`] arena and are named
//! by their index in it.
use vstd::prelude::*;

verus! {

/// A node of an XML tree, named by its index in the tree.
#[derive(Clone, Copy, Debug, PartialEq, Eq, Structural)]
pub struct XmlNode(pub usize);

/// What the tree records of one node.
#[derive(Clone, Debug)]
pub struct XmlNodeData {
    parent: Option<XmlNode>,
    children: Vec<XmlNode>,
}

/// An arena of XML nodes.
#[derive(Clone, Debug)]
pub struct XmlTree {
    nodes: Vec<XmlNodeData>,
}

impl XmlTree {
    /// The number of nodes in the tree.
    pub closed spec fn spec_len(&self) -> nat {
        self.nodes@.len()
    }

    /// The children of `node`, in order; none for a node not in the tree.
    pub closed spec fn spec_children(&self, node: XmlNode) -> Seq<XmlNode> {
        if node.0 < self.nodes@.len() {
            self.nodes@[node.0 as int].children@
        } else {
            Seq::empty()
        }
    }

    /// The parent of `node`; none for a root or a node not in the tree.
    pub closed spec fn spec_parent(&self, node: XmlNode) -> Option<XmlNode> {
        if node.0 < self.nodes@.len() {
            self.nodes@[node.0 as int].parent
        } else {
            None
        }
    }

    /// Every parent was added before its children: its index is smaller.
    pub open spec fn parents_precede(&self) -> bool {
        forall|m: XmlNode| #[trigger] self.spec_parent(m) matches Some(p) ==> p.0 < m.0
    }

    /// An empty tree.
    pub fn new() -> (t: XmlTree)
        ensures
            t.spec_len() == 0,
            t.parents_precede(),
    {
        XmlTree { nodes: Vec::new() }
    }

    /// Adds a node without a parent.
    pub fn add_root(&mut self) -> (n: XmlNode)
        ensures
            n.0 == old(self).spec_len(),
            final(self).spec_len() == old(self).spec_len() + 1,
            final(self).spec_parent(n) is None,
            old(self).parents_precede() ==> final(self).parents_precede(),
            final(self).spec_children(n) == Seq::<XmlNode>::empty(),
            forall|m: XmlNode|
                m.0 < old(self).spec_len() ==> final(self).spec_parent(m) == old(self).spec_parent(
                    m,
                ) && final(self).spec_children(m) == old(self).spec_children(m),
    {
        let n = XmlNode(self.nodes.len());
        self.nodes.push(XmlNodeData { parent: None, children: Vec::new() });
        proof {
            if old(self).parents_precede() {
                assert forall|m: XmlNode| #[trigger] self.spec_parent(m) is Some implies (self.spec_parent(
                    m,
                )->0).0 < m.0 by {
                    if m.0 < old(self).spec_len() {
                        assert(self.spec_parent(m) == old(self).spec_parent(m));
                    }
                }
            }
        }
        n
    }

    /// Adds a node as the last child of `parent`.
    pub fn append_child(&mut self, parent: XmlNode) -> (n: XmlNode)
        requires
            parent.0 < old(self).spec_len(),
        ensures
            n.0 == old(self).spec_len(),
            final(self).spec_len() == old(self).spec_len() + 1,
            final(self).spec_parent(n) == Some(parent),
            final(self).spec_children(n) == Seq::<XmlNode>::empty(),
            old(self).parents_precede() ==> final(self).parents_precede(),
            final(self).spec_children(parent) == old(self).spec_children(parent).push(n),
            forall|m: XmlNode|
                m.0 < old(self).spec_len() ==> final(self).spec_parent(m) == old(self).spec_parent(
                    m,
                ),
            forall|m: XmlNode|
                m.0 < old(self).spec_len() && m != parent ==> final(self).spec_children(m) == old(self).spec_children(m),
    {
        let n = XmlNode(self.nodes.len());
        let mut data = self.nodes.remove(parent.0);
        data.children.push(n);
        self.nodes.insert(parent.0, data);
        self.nodes.push(XmlNodeData { parent: Some(parent), children: Vec::new() });
        proof {
            if old(self).parents_precede() {
                assert forall|m: XmlNode| #[trigger] self.spec_parent(m) is Some implies (self.spec_parent(
                    m,
                )->0).0 < m.0 by {
                    if m.0 < old(self).spec_len() {
                        assert(self.spec_parent(m) == old(self).spec_parent(m));
                    }
                }
            }
        }
        n
    }

    /// The number of children of `node`.
    pub fn children_len(&self, node: XmlNode) -> (r: usize)
        ensures
            r == self.spec_children(node).len(),
    {
        if node.0 < self.nodes.len() {
            self.nodes[node.0].children.len()
        } else {
            0
        }
    }

    /// The child of `node` at `index`, if there is one.
    pub fn get_child_by_index(&self, node: XmlNode, index: usize) -> (r: Option<XmlNode>)
        ensures
            r == (if index < self.spec_children(node).len() {
                Some(self.spec_children(node)[index as int])
            } else {
                None
            }),
    {
        if node.0 < self.nodes.len() && index < self.nodes[node.0].children.len() {
            Some(self.nodes[node.0].children[index])
        } else {
            None
        }
    }

    /// The parent of `node`, if it has one.
    pub fn parent(&self, node: XmlNode) -> (r: Option<XmlNode>)
        ensures
            r == self.spec_parent(node),
    {
        if node.0 < self.nodes.len() {
            self.nodes[node.0].parent
        } else {
            None
        }
    }
}

/// Yields the direct children of a node, from the front or from the back,
/// each at most once.
#[derive(Clone, Copy, Debug)]
pub struct ChildIter {
    base: XmlNode,
    index: usize,
    back_index: usize,
}

impl ChildIter {
    pub closed spec fn spec_base(&self) -> XmlNode {
        self.base
    }

    /// The position of the next child from the front.
    pub closed spec fn spec_index(&self) -> usize {
        self.index
    }

    /// One past the position of the next child from the back.
    pub closed spec fn spec_back_index(&self) -> usize {
        self.back_index
    }

    /// The two ends have not crossed.
    pub open spec fn wf(&self) -> bool {
        self.spec_index() <= self.spec_back_index()
    }

    /// An iterator over all children of `base`.
    pub fn for_node(tree: &XmlTree, base: XmlNode) -> (it: ChildIter)
        ensures
            it.spec_base() == base,
            it.spec_index() == 0,
            it.spec_back_index() == tree.spec_children(base).len(),
            it.wf(),
    {
        ChildIter { base, index: 0, back_index: tree.children_len(base) }
    }

    /// The next child from the front, or `None` once the ends have met.
    pub fn next(&mut self, tree: &XmlTree) -> (r: Option<XmlNode>)
        requires
            old(self).wf(),
        ensures
            final(self).wf(),
            child_call(*tree, *old(self), true, r, *final(self)),
    {
        if self.index < self.back_index {
            let item = tree.get_child_by_index(self.base, self.index);
            self.index = self.index + 1;
            return item;
        }
        None
    }

    /// The next child from the back, or `None` once the ends have met.
    pub fn next_back(&mut self, tree: &XmlTree) -> (r: Option<XmlNode>)
        requires
            old(self).wf(),
        ensures
            final(self).wf(),
            child_call(*tree, *old(self), false, r, *final(self)),
    {
        if self.index < self.back_index {
            self.back_index = self.back_index - 1;
            let item = tree.get_child_by_index(self.base, self.back_index);
            return item;
        }
        None
    }
}

/// The child of `base` at position `k`, if there is one.
pub open spec fn child_at(tree: XmlTree, base: XmlNode, k: int) -> Option<XmlNode> {
    if 0 <= k < tree.spec_children(base).len() {
        Some(tree.spec_children(base)[k])
    } else {
        None
    }
}

/// The position that one step of a child iterator yields, from the front
/// or from the back, while its ends have not met.
pub open spec fn step_position(it: ChildIter, front: bool) -> Option<int> {
    if it.spec_index() < it.spec_back_index() {
        Some(
            if front {
                it.spec_index() as int
            } else {
                it.spec_back_index() - 1
            },
        )
    } else {
        None
    }
}

/// One call of `next` (`front`) or `next_back` on `before` answers `r` and
/// leaves the iterator as `after`: the child at the step's position, the
/// front moved forward or the back moved backward; nothing, and no move,
/// once the ends have met.
pub open spec fn child_call(
    tree: XmlTree,
    before: ChildIter,
    front: bool,
    r: Option<XmlNode>,
    after: ChildIter,
) -> bool {
    &&& after.spec_base() == before.spec_base()
    &&& r == (match step_position(before, front) {
        Some(k) => child_at(tree, before.spec_base(), k),
        None => None,
    })
    &&& after.spec_index() == (if front && before.spec_index() < before.spec_back_index() {
        before.spec_index() + 1
    } else {
        before.spec_index() as int
    })
    &&& after.spec_back_index() == (if !front && before.spec_index() < before.spec_back_index() {
        before.spec_back_index() - 1
    } else {
        before.spec_back_index() as int
    })
}

/// Yields a node and then its ancestors, innermost first.
#[derive(Clone, Copy, Debug)]
pub struct AnscIter {
    next: Option<XmlNode>,
}

impl AnscIter {
    /// The node that the next step yields.
    pub closed spec fn spec_next(&self) -> Option<XmlNode> {
        self.next
    }

    /// An iterator over `node` and its ancestors.
    pub fn for_node(node: XmlNode) -> (it: AnscIter)
        ensures
            it.spec_next() == Some(node),
    {
        AnscIter { next: Some(node) }
    }

    /// The current node, moving on to its parent.
    pub fn next(&mut self, tree: &XmlTree) -> (r: Option<XmlNode>)
        ensures
            ancestor_call(*tree, *old(self), r, *final(self)),
    {
        let parent = self.next;
        if let Some(p) = parent {
            self.next = tree.parent(p);
        }
        parent
    }
}

/// The position yielded by call `i` of a run of child-iterator calls.
pub open spec fn call_position(states: Seq<ChildIter>, steps: Seq<bool>, i: int) -> Option<int> {
    step_position(states[i], steps[i])
}

/// Whether one of the first `t` calls of a run yields position `k`.
pub open spec fn yielded_before(states: Seq<ChildIter>, steps: Seq<bool>, t: int, k: int) -> bool {
    exists|i: int| 0 <= i < t && #[trigger] call_position(states, steps, i) == Some(k)
}

/// Whether `states`, `steps` and `results` are a run of child-iterator
/// calls over the children of `base`, from a fresh iterator: call `i`, a
/// `next` when `steps[i]` holds and a `next_back` otherwise, takes
/// `states[i]` to `states[i + 1]` and answers `results[i]`.
pub open spec fn child_run(
    tree: XmlTree,
    base: XmlNode,
    states: Seq<ChildIter>,
    steps: Seq<bool>,
    results: Seq<Option<XmlNode>>,
) -> bool {
    &&& states.len() == steps.len() + 1
    &&& results.len() == steps.len()
    &&& states[0].spec_base() == base
    &&& states[0].spec_index() == 0
    &&& states[0].spec_back_index() == tree.spec_children(base).len()
    &&& forall|i: int|
        0 <= i < steps.len() ==> #[trigger] child_call(tree, states[i], steps[i], results[i], states[i + 1])
}

proof fn lemma_child_run(
    tree: XmlTree,
    base: XmlNode,
    states: Seq<ChildIter>,
    steps: Seq<bool>,
    results: Seq<Option<XmlNode>>,
    t: int,
)
    requires
        child_run(tree, base, states, steps, results),
        0 <= t <= steps.len(),
    ensures
        ({
            let n = tree.spec_children(base).len() as int;
            let idx = states[t].spec_index() as int;
            let back = states[t].spec_back_index() as int;
            &&& states[t].spec_base() == base
            &&& idx <= back <= n
            &&& idx + (n - back) == (if t < n { t } else { n })
            &&& forall|k: int|
                (0 <= k < idx || back <= k < n) ==> #[trigger] yielded_before(states, steps, t, k)
            &&& forall|i: int|
                0 <= i < t && #[trigger] call_position(states, steps, i) is Some ==> ({
                    let k = call_position(states, steps, i)->0;
                    0 <= k < idx || back <= k < n
                })
            &&& forall|i: int, j: int|
                0 <= i < j < t && #[trigger] call_position(states, steps, i) is Some
                    && #[trigger] call_position(states, steps, j) is Some ==> call_position(
                    states,
                    steps,
                    i,
                )->0 != call_position(states, steps, j)->0
            &&& forall|i: int|
                0 <= i < t ==> (#[trigger] call_position(states, steps, i) is Some <==> i < n)
            &&& forall|i: int|
                0 <= i < t ==> results[i] == (match #[trigger] call_position(states, steps, i) {
                    Some(k) => child_at(tree, base, k),
                    None => None,
                })
        }),
    decreases t,
{
    if t > 0 {
        let s = t - 1;
        lemma_child_run(tree, base, states, steps, results, s);
        assert(child_call(tree, states[s], steps[s], results[s], states[s + 1]));
        let n = tree.spec_children(base).len() as int;
        let idx0 = states[s].spec_index() as int;
        let back0 = states[s].spec_back_index() as int;
        let idx = states[t].spec_index() as int;
        let back = states[t].spec_back_index() as int;
        let p = call_position(states, steps, s);
        assert forall|k: int| (0 <= k < idx || back <= k < n) implies #[trigger] yielded_before(
            states,
            steps,
            t,
            k,
        ) by {
            if 0 <= k < idx0 || back0 <= k < n {
                assert(yielded_before(states, steps, s, k));
                let i = choose|i: int| 0 <= i < s && #[trigger] call_position(states, steps, i) == Some(k);
                assert(0 <= i < t && call_position(states, steps, i) == Some(k));
            } else {
                assert(call_position(states, steps, s) == Some(k));
            }
        }
        assert forall|i: int| 0 <= i < t && #[trigger] call_position(states, steps, i) is Some implies ({
            let k = call_position(states, steps, i)->0;
            0 <= k < idx || back <= k < n
        }) by {
            if i < s {
                let k = call_position(states, steps, i)->0;
                assert(0 <= k < idx0 || back0 <= k < n);
            }
        }
        assert forall|i: int, j: int|
            0 <= i < j < t && #[trigger] call_position(states, steps, i) is Some
                && #[trigger] call_position(states, steps, j) is Some implies call_position(
            states,
            steps,
            i,
        )->0 != call_position(states, steps, j)->0 by {
            if j == s {
                let k = call_position(states, steps, i)->0;
                assert(0 <= k < idx0 || back0 <= k < n);
            }
        }
    }
}

/// Driving a child iterator by any mix of `next` and `next_back` calls
/// yields each child once: call `i` answers the child at the position it
/// steps to; a position is yielded at most once and lies among the
/// children; the first `n` calls (for `n` children) each yield one and
/// every later call yields nothing; and after `n` calls every position has
/// been yielded.
pub proof fn law_children_each_once(
    tree: XmlTree,
    base: XmlNode,
    states: Seq<ChildIter>,
    steps: Seq<bool>,
    results: Seq<Option<XmlNode>>,
)
    requires
        child_run(tree, base, states, steps, results),
    ensures
        forall|i: int|
            0 <= i < steps.len() ==> results[i] == (match #[trigger] call_position(states, steps, i) {
                Some(k) => child_at(tree, base, k),
                None => None,
            }),
        forall|i: int|
            0 <= i < steps.len() ==> (#[trigger] call_position(states, steps, i) is Some <==> i
                < tree.spec_children(base).len()),
        forall|i: int|
            0 <= i < steps.len() && #[trigger] call_position(states, steps, i) is Some ==> 0
                <= call_position(states, steps, i)->0 < tree.spec_children(base).len(),
        forall|i: int, j: int|
            0 <= i < j < steps.len() && #[trigger] call_position(states, steps, i) is Some
                && #[trigger] call_position(states, steps, j) is Some ==> call_position(
                states,
                steps,
                i,
            )->0 != call_position(states, steps, j)->0,
        steps.len() >= tree.spec_children(base).len() ==> forall|k: int|
            0 <= k < tree.spec_children(base).len() ==> #[trigger] yielded_before(
                states,
                steps,
                steps.len() as int,
                k,
            ),
{
    lemma_child_run(tree, base, states, steps, results, steps.len() as int);
}

/// Where an ancestor iterator started at `node` stands after `k` steps: the
/// node it yields next.
pub open spec fn ancestor_walk(tree: XmlTree, node: XmlNode, k: nat) -> Option<XmlNode>
    decreases k,
{
    if k == 0 {
        Some(node)
    } else {
        match ancestor_walk(tree, node, (k - 1) as nat) {
            Some(n) => tree.spec_parent(n),
            None => None,
        }
    }
}

proof fn lemma_walk_descends(tree: XmlTree, node: XmlNode, k: nat)
    requires
        tree.parents_precede(),
    ensures
        ancestor_walk(tree, node, k) matches Some(n) ==> n.0 + k <= node.0,
    decreases k,
{
    if k > 0 {
        lemma_walk_descends(tree, node, (k - 1) as nat);
        if let Some(n) = ancestor_walk(tree, node, (k - 1) as nat) {
            if let Some(p) = tree.spec_parent(n) {
                assert(p.0 < n.0);
            }
        }
    }
}

proof fn lemma_walk_stays_done(tree: XmlTree, node: XmlNode, k: nat, j: nat)
    requires
        k <= j,
        ancestor_walk(tree, node, k) is None,
    ensures
        ancestor_walk(tree, node, j) is None,
    decreases j - k,
{
    if k < j {
        lemma_walk_stays_done(tree, node, k, (j - 1) as nat);
    }
}

/// One call of an ancestor iterator's `next` on `before` answers `r` and
/// leaves the iterator as `after`: the node it stood on, moving on to that
/// node's parent.
pub open spec fn ancestor_call(tree: XmlTree, before: AnscIter, r: Option<XmlNode>, after: AnscIter) -> bool {
    &&& r == before.spec_next()
    &&& after.spec_next() == (match before.spec_next() {
        Some(n) => tree.spec_parent(n),
        None => None,
    })
}

proof fn lemma_ancestor_run(
    tree: XmlTree,
    node: XmlNode,
    states: Seq<AnscIter>,
    results: Seq<Option<XmlNode>>,
    t: int,
)
    requires
        states.len() == results.len() + 1,
        states[0].spec_next() == Some(node),
        forall|i: int|
            0 <= i < results.len() ==> #[trigger] ancestor_call(tree, states[i], results[i], states[i + 1]),
        0 <= t <= results.len(),
    ensures
        states[t].spec_next() == ancestor_walk(tree, node, t as nat),
    decreases t,
{
    if t > 0 {
        let s = t - 1;
        lemma_ancestor_run(tree, node, states, results, s);
        assert(ancestor_call(tree, states[s], results[s], states[s + 1]));
    }
}

/// Driving an ancestor iterator from a node: call `i` answers
/// [`ancestor_walk`] at `i`, so the node itself comes first and then each
/// parent in turn; once a call answers nothing, every later call answers
/// nothing; and in a tree whose parents precede their children, call
/// `node.0 + 1` and every later one answer nothing.
pub proof fn law_ancestors_then_nothing(
    tree: XmlTree,
    node: XmlNode,
    states: Seq<AnscIter>,
    results: Seq<Option<XmlNode>>,
)
    requires
        states.len() == results.len() + 1,
        states[0].spec_next() == Some(node),
        forall|i: int|
            0 <= i < results.len() ==> #[trigger] ancestor_call(tree, states[i], results[i], states[i + 1]),
    ensures
        forall|i: int| 0 <= i < results.len() ==> #[trigger] results[i] == ancestor_walk(tree, node, i as nat),
        results.len() > 0 ==> results[0] == Some(node),
        forall|i: int, j: int|
            0 <= i <= j < results.len() && #[trigger] results[i] is None ==> #[trigger] results[j] is None,
        tree.parents_precede() ==> forall|j: int|
            node.0 + 1 <= j < results.len() ==> #[trigger] results[j] is None,
{
    assert forall|i: int| 0 <= i < results.len() implies #[trigger] results[i] == ancestor_walk(tree, node, i as nat) by {
        lemma_ancestor_run(tree, node, states, results, i);
        assert(ancestor_call(tree, states[i], results[i], states[i + 1]));
    }
    assert forall|i: int, j: int|
        0 <= i <= j < results.len() && #[trigger] results[i] is None implies #[trigger] results[j] is None by {
        assert(results[i] == ancestor_walk(tree, node, i as nat));
        assert(results[j] == ancestor_walk(tree, node, j as nat));
        lemma_walk_stays_done(tree, node, i as nat, j as nat);
    }
    if tree.parents_precede() {
        assert forall|j: int| node.0 + 1 <= j < results.len() implies #[trigger] results[j] is None by {
            assert(results[j] == ancestor_walk(tree, node, j as nat));
            lemma_walk_descends(tree, node, j as nat);
        }
    }
}

} // verus!
