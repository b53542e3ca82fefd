use crate::NodeKind;
use vstd::prelude::*;

verus! {

/// One attribute of an element. Its strings are views into the parsed
/// input, valid while that input lives.
#[derive(Clone, Copy, Debug)]
pub struct Attribute<'a> {
    pub name: &'a str,
    pub namespace: Option<&'a str>,
    pub value: &'a str,
}

/// One node of a parsed tree. Children are ids of nodes of the same
/// [`Document`]; `text` is the node's concatenated text, if it has any.
/// Its strings are views into the parsed input, valid while that input lives.
#[derive(Clone, Debug)]
pub struct Node<'a> {
    pub kind: NodeKind,
    pub tag: &'a str,
    pub namespace: Option<&'a str>,
    pub attributes: Vec<Attribute<'a>>,
    pub children: Vec<usize>,
    pub text: Option<&'a str>,
}

/// An arena of nodes. A node's children are always added before it, so
/// every child id names a node that exists.
pub struct Document<'a> {
    nodes: Vec<Node<'a>>,
}

impl<'a> View for Document<'a> {
    type V = Seq<Node<'a>>;

    closed spec fn view(&self) -> Seq<Node<'a>> {
        self.nodes@
    }
}

/// Every child id of every node names a node of `nodes`.
pub open spec fn children_in<'a>(nodes: Seq<Node<'a>>) -> bool {
    forall|i: int, k: int|
        0 <= i < nodes.len() && 0 <= k < nodes[i].children@.len() ==> #[trigger] nodes[i].children@[k]
            < nodes.len()
}

impl<'a> Document<'a> {
    /// Every child id names a node of the document. [`Document::new`]
    /// establishes it and [`Document::push`] keeps it.
    pub open spec fn wf(&self) -> bool {
        children_in(self@)
    }

    /// A document with no nodes.
    pub fn new() -> (r: Document<'a>)
        ensures
            r@ == Seq::<Node<'a>>::empty(),
            r.wf(),
    {
        Document { nodes: Vec::new() }
    }

    /// The number of nodes.
    pub fn len(&self) -> (r: usize)
        ensures
            r == self@.len(),
    {
        self.nodes.len()
    }

    /// Adds a node whose children are already in the document, and returns
    /// its id.
    pub fn push(&mut self, node: Node<'a>) -> (id: usize)
        requires
            old(self).wf(),
            old(self)@.len() < usize::MAX,
            forall|k: int| 0 <= k < node.children@.len() ==> #[trigger] node.children@[k] < old(self)@.len(),
        ensures
            id == old(self)@.len(),
            final(self)@ == old(self)@.push(node),
            final(self).wf(),
    {
        self.nodes.push(node);
        proof {
            let nodes = self.nodes@;
            assert forall|i: int, k: int|
                0 <= i < nodes.len() && 0 <= k < nodes[i].children@.len() implies #[trigger] nodes[i].children@[k]
                < nodes.len() by {
                if i < nodes.len() - 1 {
                    assert(nodes[i] == old(self).nodes@[i]);
                }
            }
        }
        self.nodes.len() - 1
    }

    /// The node with the given id.
    pub fn node(&self, id: usize) -> (r: &Node<'a>)
        requires
            self.wf(),
            id < self@.len(),
        ensures
            *r == self@[id as int],
            forall|k: int| 0 <= k < r.children@.len() ==> #[trigger] r.children@[k] < self@.len(),
    {
        &self.nodes[id]
    }
}

} // verus!
