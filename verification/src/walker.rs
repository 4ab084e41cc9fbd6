//! Structure-preserving document tree mapping.
//!
//! A document is an ordered forest of nodes: opaque leaves, titles, and
//! `Content` nodes carrying a text body and an ordered list of children.
//! Mapping the tree replaces every `Content` body while keeping the tree's
//! shape, every title, and every ordering exactly as in the input. The walk
//! is split into two passes so the body transformations — which need the
//! container engine — can run outside this crate, concurrently and in any
//! completion order: `collect_forest` lists every body in traversal order,
//! and `map_forest` splices the transformed bodies back by position.

use vstd::prelude::*;

verus! {

/// One node of the document tree.
#[derive(Debug, PartialEq, Eq)]
pub enum Node {
    /// An opaque pass-through node, e.g. a structural separator.
    Leaf,
    /// A label-only node with no content of its own.
    Titled { title: String },
    /// A content-bearing node: a title, a text body, and ordered children.
    Content { title: String, body: String, children: Vec<Node> },
}

/// How many `Content` nodes a node's subtree holds.
pub open spec fn content_count(n: Node) -> nat
    decreases n,
{
    match n {
        Node::Content { children, .. } => 1 + content_count_forest(children@),
        _ => 0,
    }
}

/// How many `Content` nodes a forest holds.
pub open spec fn content_count_forest(ns: Seq<Node>) -> nat
    decreases ns,
{
    if ns.len() == 0 {
        0
    } else {
        content_count(ns[0]) + content_count_forest(ns.drop_first())
    }
}

/// The bodies of a subtree in traversal order: a `Content` node's own body
/// comes before those of its descendants, and siblings in child order.
pub open spec fn bodies_of(n: Node) -> Seq<Seq<char>>
    decreases n,
{
    match n {
        Node::Content { body, children, .. } => seq![body@] + bodies_of_forest(children@),
        _ => seq![],
    }
}

/// The bodies of a forest in traversal order.
pub open spec fn bodies_of_forest(ns: Seq<Node>) -> Seq<Seq<char>>
    decreases ns,
{
    if ns.len() == 0 {
        seq![]
    } else {
        bodies_of(ns[0]) + bodies_of_forest(ns.drop_first())
    }
}

/// Two nodes have the same skeleton: the same kind, the same title, and
/// children that pairwise have the same skeleton. Only bodies may differ.
pub open spec fn same_skeleton(a: Node, b: Node) -> bool
    decreases a,
{
    match (a, b) {
        (Node::Leaf, Node::Leaf) => true,
        (Node::Titled { title: ta }, Node::Titled { title: tb }) => ta@ == tb@,
        (
            Node::Content { title: ta, children: ca, .. },
            Node::Content { title: tb, children: cb, .. },
        ) => ta@ == tb@ && same_skeleton_forest(ca@, cb@),
        _ => false,
    }
}

/// Two forests have the same skeleton: equal length and pairwise equal
/// skeletons, in order.
pub open spec fn same_skeleton_forest(a: Seq<Node>, b: Seq<Node>) -> bool
    decreases a,
{
    &&& a.len() == b.len()
    &&& a.len() > 0 ==> same_skeleton(a[0], b[0]) && same_skeleton_forest(
        a.drop_first(),
        b.drop_first(),
    )
}

/// The views of a sequence of owned strings.
pub open spec fn views(v: Seq<String>) -> Seq<Seq<char>> {
    v.map_values(|s: String| s@)
}

/// Content counting distributes over forest concatenation.
pub proof fn lemma_count_forest_concat(a: Seq<Node>, b: Seq<Node>)
    ensures
        content_count_forest(a + b) == content_count_forest(a) + content_count_forest(b),
    decreases a,
{
    if a.len() == 0 {
        assert(a + b =~= b);
    } else {
        assert((a + b).drop_first() =~= a.drop_first() + b);
        lemma_count_forest_concat(a.drop_first(), b);
    }
}

/// Body listing distributes over forest concatenation.
pub proof fn lemma_bodies_forest_concat(a: Seq<Node>, b: Seq<Node>)
    ensures
        bodies_of_forest(a + b) == bodies_of_forest(a) + bodies_of_forest(b),
    decreases a,
{
    if a.len() == 0 {
        assert(a + b =~= b);
        assert(bodies_of_forest(a) + bodies_of_forest(b) =~= bodies_of_forest(b));
    } else {
        assert((a + b).drop_first() =~= a.drop_first() + b);
        lemma_bodies_forest_concat(a.drop_first(), b);
        assert(bodies_of_forest(a + b) =~= bodies_of_forest(a) + bodies_of_forest(b));
    }
}

/// Appending skeleton-equal nodes to skeleton-equal forests keeps the
/// forests skeleton-equal.
pub proof fn lemma_skeleton_forest_snoc(a: Seq<Node>, b: Seq<Node>, x: Node, y: Node)
    requires
        same_skeleton_forest(a, b),
        same_skeleton(x, y),
    ensures
        same_skeleton_forest(a.push(x), b.push(y)),
    decreases a,
{
    assert(a.push(x)[0] == if a.len() == 0 { x } else { a[0] });
    assert(b.push(y)[0] == if b.len() == 0 { y } else { b[0] });
    if a.len() == 0 {
        assert(a.push(x).drop_first() =~= Seq::<Node>::empty());
        assert(b.push(y).drop_first() =~= Seq::<Node>::empty());
        assert(same_skeleton_forest(Seq::<Node>::empty(), Seq::<Node>::empty()));
    } else {
        assert(a.push(x).drop_first() =~= a.drop_first().push(x));
        assert(b.push(y).drop_first() =~= b.drop_first().push(y));
        lemma_skeleton_forest_snoc(a.drop_first(), b.drop_first(), x, y);
    }
}

/// A one-node forest holds its node's count.
pub proof fn lemma_count_forest_singleton(x: Node)
    ensures
        content_count_forest(seq![x]) == content_count(x),
{
    reveal_with_fuel(content_count_forest, 2);
    assert(seq![x].drop_first() =~= Seq::<Node>::empty());
}

/// A one-node forest lists its node's bodies.
pub proof fn lemma_bodies_forest_singleton(x: Node)
    ensures
        bodies_of_forest(seq![x]) == bodies_of(x),
{
    reveal_with_fuel(bodies_of_forest, 2);
    assert(seq![x].drop_first() =~= Seq::<Node>::empty());
    assert(bodies_of(x) + bodies_of_forest(Seq::<Node>::empty()) =~= bodies_of(x));
}

/// A forest's count splits at any position.
pub proof fn lemma_count_forest_split(s: Seq<Node>, k: int)
    requires
        0 <= k <= s.len(),
    ensures
        content_count_forest(s.take(k)) + content_count_forest(s.skip(k)) == content_count_forest(
            s,
        ),
{
    assert(s.take(k) + s.skip(k) =~= s);
    lemma_count_forest_concat(s.take(k), s.skip(k));
}

/// A subtree lists exactly as many bodies as it has `Content` nodes.
pub proof fn lemma_bodies_len(n: Node)
    ensures
        bodies_of(n).len() == content_count(n),
    decreases n,
{
    match n {
        Node::Content { children, .. } => {
            lemma_bodies_len_forest(children@);
        },
        _ => {},
    }
}

/// A forest lists exactly as many bodies as it has `Content` nodes.
pub proof fn lemma_bodies_len_forest(ns: Seq<Node>)
    ensures
        bodies_of_forest(ns).len() == content_count_forest(ns),
    decreases ns,
{
    if ns.len() > 0 {
        lemma_bodies_len(ns[0]);
        lemma_bodies_len_forest(ns.drop_first());
    }
}

/// Append the bodies of one subtree to the accumulator, in traversal order.
fn collect_into(n: &Node, acc: &mut Vec<String>)
    ensures
        views(final(acc)@) == views(old(acc)@) + bodies_of(*n),
    decreases *n,
{
    match n {
        Node::Content { body, children, .. } => {
            let ghost base: Seq<Seq<char>> = views(acc@);
            acc.push(body.clone());
            proof {
                assert(views(acc@) =~= base + seq![body@]);
            }
            let mut k: usize = 0;
            proof {
                assert(children@.take(0int) =~= Seq::<Node>::empty());
                assert(base + seq![body@] + bodies_of_forest(Seq::<Node>::empty()) =~= base
                    + seq![body@]);
            }
            while k < children.len()
                invariant
                    k <= children@.len(),
                    *n matches Node::Content { children: nc, .. } && nc@ == children@,
                    views(acc@) == base + seq![body@] + bodies_of_forest(children@.take(k as int)),
                decreases children@.len() - k,
            {
                proof {
                    assert(decreases_to!(children@ => children@[k as int]));
                }
                collect_into(&children[k], acc);
                proof {
                    assert(children@.take(k + 1) =~= children@.take(k as int) + seq![
                        children@[k as int],
                    ]);
                    lemma_bodies_forest_concat(children@.take(k as int), seq![children@[k as int]]);
                    lemma_bodies_forest_singleton(children@[k as int]);
                    assert(views(acc@) =~= base + seq![body@] + bodies_of_forest(
                        children@.take(k + 1),
                    ));
                }
                k = k + 1;
            }
            proof {
                assert(children@.take(children@.len() as int) =~= children@);
                assert(base + seq![body@] + bodies_of_forest(children@) =~= base + bodies_of(*n));
            }
        },
        _ => {
            proof {
                assert(views(acc@) =~= views(acc@) + bodies_of(*n));
            }
        },
    }
}

/// The bodies of a whole document forest in traversal order: the inputs
/// that the embedding transforms — concurrently, in any completion order —
/// before splicing the results back with `map_forest`.
pub fn collect_forest(roots: &Vec<Node>) -> (r: Vec<String>)
    ensures
        views(r@) == bodies_of_forest(roots@),
{
    let mut acc: Vec<String> = Vec::new();
    let mut k: usize = 0;
    proof {
        assert(roots@.take(0int) =~= Seq::<Node>::empty());
        assert(views(acc@) =~= bodies_of_forest(Seq::<Node>::empty()));
    }
    while k < roots.len()
        invariant
            k <= roots@.len(),
            views(acc@) == bodies_of_forest(roots@.take(k as int)),
        decreases roots@.len() - k,
    {
        collect_into(&roots[k], &mut acc);
        proof {
            assert(roots@.take(k + 1) =~= roots@.take(k as int) + seq![roots@[k as int]]);
            lemma_bodies_forest_concat(roots@.take(k as int), seq![roots@[k as int]]);
            lemma_bodies_forest_singleton(roots@[k as int]);
            assert(views(acc@) =~= bodies_of_forest(roots@.take(k + 1)));
        }
        k = k + 1;
    }
    proof {
        assert(roots@.take(roots@.len() as int) =~= roots@);
    }
    acc
}

/// Rebuild one subtree with the bodies `bodies[at..]`, consuming exactly
/// as many as the subtree has `Content` nodes. The result has the same
/// skeleton, and its bodies in traversal order are exactly the consumed
/// range — structure and ordering come from the input position alone.
fn replace_node(n: &Node, bodies: &Vec<String>, at: usize) -> (r: (Node, usize))
    requires
        at + content_count(*n) <= bodies@.len(),
    ensures
        r.1 == at + content_count(*n),
        same_skeleton(*n, r.0),
        bodies_of(r.0) == views(bodies@).subrange(at as int, r.1 as int),
    decreases *n,
{
    match n {
        Node::Leaf => {
            proof {
                assert(bodies_of(Node::Leaf) =~= views(bodies@).subrange(at as int, at as int));
            }
            (Node::Leaf, at)
        },
        Node::Titled { title } => {
            let out = Node::Titled { title: title.clone() };
            proof {
                assert(bodies_of(out) =~= views(bodies@).subrange(at as int, at as int));
            }
            (out, at)
        },
        Node::Content { title, body: _, children } => {
            let total = bodies.len();
            assert(at < total);
            let new_body = bodies[at].clone();
            let mut new_children: Vec<Node> = Vec::new();
            let mut pos: usize = at + 1;
            let mut k: usize = 0;
            proof {
                assert(children@.take(0int) =~= Seq::<Node>::empty());
                assert(bodies_of_forest(Seq::<Node>::empty()) =~= views(bodies@).subrange(
                    at + 1,
                    at + 1,
                ));
                lemma_count_forest_split(children@, 0int);
            }
            while k < children.len()
                invariant
                    k <= children@.len(),
                    *n matches Node::Content { children: nc, .. } && nc@ == children@,
                    at + content_count(*n) <= bodies@.len(),
                    pos == at + 1 + content_count_forest(children@.take(k as int)),
                    pos + content_count_forest(children@.skip(k as int)) == at + content_count(*n),
                    same_skeleton_forest(children@.take(k as int), new_children@),
                    bodies_of_forest(new_children@) == views(bodies@).subrange(at + 1, pos as int),
                decreases children@.len() - k,
            {
                proof {
                    assert(children@.skip(k as int)[0] == children@[k as int]);
                    assert(children@.skip(k as int).drop_first() =~= children@.skip(k + 1));
                    assert(content_count_forest(children@.skip(k as int)) == content_count(
                        children@[k as int],
                    ) + content_count_forest(children@.skip(k + 1)));
                    assert(decreases_to!(children@ => children@[k as int]));
                }
                let (child, next) = replace_node(&children[k], bodies, pos);
                proof {
                    assert(children@.take(k + 1) =~= children@.take(k as int) + seq![
                        children@[k as int],
                    ]);
                    lemma_count_forest_concat(children@.take(k as int), seq![children@[k as int]]);
                    lemma_count_forest_singleton(children@[k as int]);
                    lemma_skeleton_forest_snoc(
                        children@.take(k as int),
                        new_children@,
                        children@[k as int],
                        child,
                    );
                }
                let ghost old_new = new_children@;
                new_children.push(child);
                proof {
                    assert(children@.take(k + 1) =~= children@.take(k as int).push(
                        children@[k as int],
                    ));
                    assert(new_children@ =~= old_new.push(child));
                    assert(new_children@ =~= old_new + seq![child]);
                    lemma_bodies_forest_concat(old_new, seq![child]);
                    lemma_bodies_forest_singleton(child);
                    assert(bodies_of_forest(new_children@) =~= views(bodies@).subrange(
                        at + 1,
                        next as int,
                    ));
                }
                pos = next;
                k = k + 1;
            }
            proof {
                assert(children@.take(children@.len() as int) =~= children@);
                assert(children@.skip(children@.len() as int) =~= Seq::<Node>::empty());
            }
            let out = Node::Content { title: title.clone(), body: new_body, children: new_children };
            proof {
                assert(views(bodies@)[at as int] == bodies@[at as int]@);
                assert(bodies_of(out) =~= views(bodies@).subrange(at as int, pos as int));
            }
            (out, pos)
        },
    }
}

/// Map a whole document forest: splice the transformed bodies back, one per
/// `Content` node in traversal order. The result has exactly the input's
/// shape, titles, and ordering; only the bodies are replaced.
pub fn map_forest(roots: &Vec<Node>, bodies: &Vec<String>) -> (r: Vec<Node>)
    requires
        content_count_forest(roots@) == bodies@.len(),
    ensures
        same_skeleton_forest(roots@, r@),
        bodies_of_forest(r@) == views(bodies@),
{
    let mut out: Vec<Node> = Vec::new();
    let mut pos: usize = 0;
    let mut k: usize = 0;
    proof {
        assert(roots@.take(0int) =~= Seq::<Node>::empty());
        assert(bodies_of_forest(Seq::<Node>::empty()) =~= views(bodies@).subrange(0int, 0int));
        lemma_count_forest_split(roots@, 0int);
    }
    while k < roots.len()
        invariant
            k <= roots@.len(),
            content_count_forest(roots@) == bodies@.len(),
            pos == content_count_forest(roots@.take(k as int)),
            pos + content_count_forest(roots@.skip(k as int)) == bodies@.len(),
            same_skeleton_forest(roots@.take(k as int), out@),
            bodies_of_forest(out@) == views(bodies@).subrange(0int, pos as int),
        decreases roots@.len() - k,
    {
        proof {
            assert(roots@.skip(k as int)[0] == roots@[k as int]);
            assert(roots@.skip(k as int).drop_first() =~= roots@.skip(k + 1));
            assert(content_count_forest(roots@.skip(k as int)) == content_count(roots@[k as int])
                + content_count_forest(roots@.skip(k + 1)));
        }
        let (node, next) = replace_node(&roots[k], bodies, pos);
        proof {
            assert(roots@.take(k + 1) =~= roots@.take(k as int) + seq![roots@[k as int]]);
            lemma_count_forest_concat(roots@.take(k as int), seq![roots@[k as int]]);
            lemma_count_forest_singleton(roots@[k as int]);
            lemma_skeleton_forest_snoc(roots@.take(k as int), out@, roots@[k as int], node);
        }
        let ghost old_out = out@;
        out.push(node);
        proof {
            assert(roots@.take(k + 1) =~= roots@.take(k as int).push(roots@[k as int]));
            assert(out@ =~= old_out.push(node));
            assert(out@ =~= old_out + seq![node]);
            lemma_bodies_forest_concat(old_out, seq![node]);
            lemma_bodies_forest_singleton(node);
            assert(bodies_of_forest(out@) =~= views(bodies@).subrange(0int, next as int));
        }
        pos = next;
        k = k + 1;
    }
    proof {
        assert(roots@.take(roots@.len() as int) =~= roots@);
        assert(views(bodies@).subrange(0int, bodies@.len() as int) =~= views(bodies@));
    }
    out
}

} // verus!
