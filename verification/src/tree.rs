//! The scene graph, and its flattening into the list of shapes that the
//! tracer consumes.
//!
//! The nodes of a scene lie in one arena and name their children by
//! position, so that a subtree may hang under several parents. Flattening
//! walks the graph once from the root and lists every shape it meets with
//! the chain of transformations on the way down to it; the caller turns
//! each chain into a matrix.

use vstd::prelude::*;
use crate::scalar::Scalar;
use crate::scene::ParsedShape;
use crate::vector::Vec3;

verus! {

/// One step of placing a shape in the world.
#[derive(Clone, Copy, Debug)]
pub enum Transformation {
    /// A shift by a vector.
    Translate(Vec3),
    /// A scaling along each axis.
    Scale(Vec3),
    /// A turn about an axis by an angle.
    Rotate(Vec3, Scalar),
}

/// A node of the scene graph. Its transformations apply, in order and after
/// those of the nodes above it, to its own shapes and to everything below.
#[derive(Debug)]
pub struct Node {
    pub transformations: Vec<Transformation>,
    pub shapes: Vec<ParsedShape>,
    /// The positions of the child nodes in the arena.
    pub children: Vec<usize>,
}

/// A shape of the scene graph as the walk from the root meets it.
#[derive(Debug)]
pub struct Placed {
    /// The position of the shape's node in the arena.
    pub node: usize,
    /// The position of the shape among its node's shapes.
    pub shape: usize,
    /// The transformations on the way from the root down to the shape's
    /// node, that node's included, in the order in which they apply.
    pub chain: Vec<Transformation>,
}

/// What a `Placed` stands for.
pub struct Placement {
    pub node: int,
    pub shape: int,
    pub chain: Seq<Transformation>,
}

impl View for Placed {
    type V = Placement;

    open spec fn view(&self) -> Placement {
        Placement { node: self.node as int, shape: self.shape as int, chain: self.chain@ }
    }
}

/// The views of a list of placed shapes.
pub open spec fn placements(placed: Seq<Placed>) -> Seq<Placement> {
    Seq::new(placed.len(), |k: int| placed[k]@)
}

/// The shapes of one node, under a chain of transformations that includes
/// the node's own.
pub open spec fn own_shapes(nodes: Seq<Node>, node: int, chain: Seq<Transformation>) -> Seq<
    Placement,
> {
    Seq::new(nodes[node].shapes@.len(), |k: int| Placement { node, shape: k, chain })
}

/// The shapes met on a walk from a node down, in the order of the walk:
/// first the node's own, then those under each child in turn. `above` is the
/// chain of transformations of the nodes above. The walk goes at most
/// `depth` nodes deep; it gives `None` if the graph reaches deeper, or names
/// a child that is not in the arena.
pub open spec fn walk(nodes: Seq<Node>, node: int, above: Seq<Transformation>, depth: nat) -> Option<
    Seq<Placement>,
>
    decreases depth, 0nat,
{
    if depth == 0 || !(0 <= node < nodes.len()) {
        None
    } else {
        let chain = above + nodes[node].transformations@;
        match walk_children(nodes, nodes[node].children@, chain, (depth - 1) as nat) {
            Some(below) => Some(own_shapes(nodes, node, chain) + below),
            None => None,
        }
    }
}

/// The shapes met on the walks from each of several children down, one
/// child after the other.
pub open spec fn walk_children(
    nodes: Seq<Node>,
    children: Seq<usize>,
    chain: Seq<Transformation>,
    depth: nat,
) -> Option<Seq<Placement>>
    decreases depth, children.len() + 1,
{
    if children.len() == 0 {
        Some(Seq::empty())
    } else {
        match (
            walk_children(nodes, children.drop_last(), chain, depth),
            walk(nodes, children.last() as int, chain, depth),
        ) {
            (Some(before), Some(last)) => Some(before + last),
            _ => None,
        }
    }
}

/// The shapes of a scene graph with their chains of transformations, as
/// the walk from the root meets them. No path of a graph without a cycle
/// passes more nodes than the arena holds, so the walk is cut off at that
/// depth.
pub open spec fn flattened(nodes: Seq<Node>, root: int) -> Option<Seq<Placement>> {
    walk(nodes, root, Seq::empty(), nodes.len())
}

/// Whether the children of every node are in the arena and rank below their
/// parent: such a graph has no cycle.
pub open spec fn ranked(nodes: Seq<Node>, rank: spec_fn(int) -> nat) -> bool {
    forall|i: int, k: int|
        0 <= i < nodes.len() && 0 <= k < nodes[i].children@.len() ==> {
            &&& (#[trigger] nodes[i].children@[k]) < nodes.len()
            &&& rank(nodes[i].children@[k] as int) < rank(i)
        }
}

/// The walk from a node of a ranked graph succeeds at every depth above the
/// node's rank.
pub proof fn lemma_ranked_walk(
    nodes: Seq<Node>,
    rank: spec_fn(int) -> nat,
    node: int,
    above: Seq<Transformation>,
    depth: nat,
)
    requires
        ranked(nodes, rank),
        0 <= node < nodes.len(),
        rank(node) < depth,
    ensures
        walk(nodes, node, above, depth).is_some(),
    decreases depth, 0nat,
{
    let chain = above + nodes[node].transformations@;
    lemma_ranked_walk_children(
        nodes,
        rank,
        node,
        nodes[node].children@.len() as int,
        chain,
        (depth - 1) as nat,
    );
    assert(nodes[node].children@.take(nodes[node].children@.len() as int)
        =~= nodes[node].children@);
}

/// The walks from the first `count` children of a node of a ranked graph
/// succeed at every depth that is at least the node's rank.
pub proof fn lemma_ranked_walk_children(
    nodes: Seq<Node>,
    rank: spec_fn(int) -> nat,
    node: int,
    count: int,
    chain: Seq<Transformation>,
    depth: nat,
)
    requires
        ranked(nodes, rank),
        0 <= node < nodes.len(),
        0 <= count <= nodes[node].children@.len(),
        rank(node) <= depth,
    ensures
        walk_children(nodes, nodes[node].children@.take(count), chain, depth).is_some(),
    decreases depth, count + 1,
{
    let children = nodes[node].children@.take(count);
    if count > 0 {
        assert(children.drop_last() =~= nodes[node].children@.take(count - 1));
        lemma_ranked_walk_children(nodes, rank, node, count - 1, chain, depth);
        let last = children.last();
        assert(last == nodes[node].children@[count - 1]);
        lemma_ranked_walk(nodes, rank, last as int, chain, depth);
    }
}

/// A graph whose nodes rank below the size of the arena, each child below
/// its parent, flattens.
pub proof fn lemma_ranked_graph_flattens(nodes: Seq<Node>, rank: spec_fn(int) -> nat, root: int)
    requires
        ranked(nodes, rank),
        0 <= root < nodes.len(),
        rank(root) < nodes.len(),
    ensures
        flattened(nodes, root).is_some(),
{
    lemma_ranked_walk(nodes, rank, root, Seq::empty(), nodes.len());
}

/// Walks from a node down and adds what it meets to `found`; `false` if the
/// graph reaches deeper than `depth` or names a child that is not there.
fn visit(
    nodes: &Vec<Node>,
    node: usize,
    above: &Vec<Transformation>,
    depth: usize,
    found: &mut Vec<Placed>,
) -> (done: bool)
    ensures
        done == walk(nodes@, node as int, above@, depth as nat).is_some(),
        done ==> placements(final(found)@) == placements(old(found)@) + walk(
            nodes@,
            node as int,
            above@,
            depth as nat,
        ).unwrap(),
    decreases depth, 0nat,
{
    if depth == 0 || node >= nodes.len() {
        return false;
    }
    let ghost start = placements(found@);
    let here = &nodes[node];
    let mut chain: Vec<Transformation> = Vec::new();
    let mut i: usize = 0;
    while i < above.len()
        invariant
            i <= above.len(),
            chain@ == above@.take(i as int),
        decreases above.len() - i,
    {
        chain.push(above[i]);
        assert(chain@ =~= above@.take(i + 1));
        i = i + 1;
    }
    assert(above@.take(above.len() as int) =~= above@);
    let mut j: usize = 0;
    while j < here.transformations.len()
        invariant
            j <= here.transformations.len(),
            chain@ == above@ + here.transformations@.take(j as int),
        decreases here.transformations.len() - j,
    {
        chain.push(here.transformations[j]);
        assert(chain@ =~= above@ + here.transformations@.take(j + 1));
        j = j + 1;
    }
    assert(here.transformations@.take(here.transformations.len() as int)
        =~= here.transformations@);
    let mut s: usize = 0;
    while s < here.shapes.len()
        invariant
            s <= here.shapes.len(),
            node < nodes.len(),
            here == nodes@[node as int],
            chain@ == above@ + here.transformations@,
            placements(found@) == start + own_shapes(nodes@, node as int, chain@).take(s as int),
        decreases here.shapes.len() - s,
    {
        let mut copy: Vec<Transformation> = Vec::new();
        let mut c: usize = 0;
        while c < chain.len()
            invariant
                c <= chain.len(),
                copy@ == chain@.take(c as int),
            decreases chain.len() - c,
        {
            copy.push(chain[c]);
            assert(copy@ =~= chain@.take(c + 1));
            c = c + 1;
        }
        assert(chain@.take(chain.len() as int) =~= chain@);
        let ghost before = placements(found@);
        found.push(Placed { node, shape: s, chain: copy });
        assert(placements(found@) =~= before.push(
            Placement { node: node as int, shape: s as int, chain: chain@ },
        ));
        assert(placements(found@) =~= start + own_shapes(nodes@, node as int, chain@).take(
            s + 1,
        ));
        s = s + 1;
    }
    assert(own_shapes(nodes@, node as int, chain@).take(here.shapes.len() as int)
        =~= own_shapes(nodes@, node as int, chain@));
    let ghost own = start + own_shapes(nodes@, node as int, chain@);
    let mut k: usize = 0;
    assert(here.children@.take(0) =~= Seq::empty());
    while k < here.children.len()
        invariant
            k <= here.children.len(),
            depth > 0,
            node < nodes.len(),
            here == nodes@[node as int],
            chain@ == above@ + here.transformations@,
            own == start + own_shapes(nodes@, node as int, chain@),
            walk_children(nodes@, here.children@.take(k as int), chain@, (depth - 1) as nat)
                matches Some(below) && placements(found@) == own + below,
        decreases depth, here.children.len() - k + 1,
    {
        let ghost before = placements(found@);
        let ghost below = walk_children(
            nodes@,
            here.children@.take(k as int),
            chain@,
            (depth - 1) as nat,
        ).unwrap();
        proof {
            assert(here.children@.take(k + 1).drop_last() =~= here.children@.take(k as int));
            assert(here.children@.take(k + 1).last() == here.children@[k as int]);
        }
        if !visit(nodes, here.children[k], &chain, depth - 1, found) {
            proof {
                lemma_walk_children_fails(
                    nodes@,
                    here.children@,
                    k as int,
                    chain@,
                    (depth - 1) as nat,
                );
            }
            return false;
        }
        proof {
            let last = walk(nodes@, here.children@[k as int] as int, chain@, (depth - 1) as nat).unwrap();
            assert(placements(found@) == before + last);
            assert(own + below + last =~= own + (below + last));
        }
        k = k + 1;
    }
    proof {
        assert(here.children@.take(here.children.len() as int) =~= here.children@);
        let below = walk_children(nodes@, here.children@, chain@, (depth - 1) as nat).unwrap();
        assert(start + own_shapes(nodes@, node as int, chain@) + below =~= start + (own_shapes(
            nodes@,
            node as int,
            chain@,
        ) + below));
    }
    true
}

/// If the walk from one child fails, so does the walk from all children.
proof fn lemma_walk_children_fails(
    nodes: Seq<Node>,
    children: Seq<usize>,
    k: int,
    chain: Seq<Transformation>,
    depth: nat,
)
    requires
        0 <= k < children.len(),
        walk(nodes, children[k] as int, chain, depth).is_none(),
    ensures
        walk_children(nodes, children, chain, depth).is_none(),
    decreases children.len(),
{
    if k < children.len() - 1 {
        lemma_walk_children_fails(nodes, children.drop_last(), k, chain, depth);
    }
}

/// Flattens a scene graph: lists every shape met on the walk from the root
/// down, each with the chain of transformations that places it. `None` if
/// the root or a child is not in the arena, or if the graph has a path of
/// more nodes than the arena holds, as every graph with a cycle below the
/// root has.
pub fn flatten(nodes: &Vec<Node>, root: usize) -> (r: Option<Vec<Placed>>)
    ensures
        r.is_some() == flattened(nodes@, root as int).is_some(),
        r matches Some(placed) ==> placements(placed@) == flattened(nodes@, root as int).unwrap(),
{
    let mut found: Vec<Placed> = Vec::new();
    let above: Vec<Transformation> = Vec::new();
    assert(placements(found@) =~= Seq::empty());
    if visit(nodes, root, &above, nodes.len(), &mut found) {
        assert(Seq::<Placement>::empty() + flattened(nodes@, root as int).unwrap()
            =~= flattened(nodes@, root as int).unwrap());
        Some(found)
    } else {
        None
    }
}

} // verus!
