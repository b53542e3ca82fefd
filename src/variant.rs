use crate::children::ChildrenDeserializer;
use crate::fields::NodeMapAccess;
use crate::node::{Document, Node};
use crate::error::Error;
use vstd::prelude::*;

verus! {

/// One node read as an enum: its tag names the variant, and the node
/// itself, or its children, supply the payload.
pub struct NodeEnumAccess<'d, 'a> {
    doc: &'d Document<'a>,
    node: usize,
}

impl<'d, 'a> NodeEnumAccess<'d, 'a> {
    #[verifier::type_invariant]
    spec fn inv(&self) -> bool {
        &&& self.doc.wf()
        &&& self.node < self.doc@.len()
    }

    /// The nodes of the document.
    pub closed spec fn nodes(&self) -> Seq<Node<'a>> {
        self.doc@
    }

    /// The id of the node that names the variant.
    pub closed spec fn node(&self) -> usize {
        self.node
    }

    /// Reads node `node` of `doc` as an enum.
    pub fn new(doc: &'d Document<'a>, node: usize) -> (r: NodeEnumAccess<'d, 'a>)
        requires
            doc.wf(),
            node < doc@.len(),
        ensures
            r.nodes() == doc@,
            r.node() == node,
    {
        NodeEnumAccess { doc, node }
    }

    /// The cursor from which the variant's name is read: the node alone.
    pub fn variant_seed(&self) -> (r: ChildrenDeserializer<'d, 'a>)
        ensures
            r.nodes() == self.nodes(),
            r.remaining() == seq![self.node()],
    {
        proof {
            use_type_invariant(self);
        }
        ChildrenDeserializer::one(self.doc, self.node)
    }

    /// A unit variant has no payload to read.
    pub fn unit_variant(&self) -> (r: Result<(), Error>)
        ensures
            r is Ok,
    {
        Ok(())
    }

    /// A single-value variant reads its payload from the same node.
    pub fn newtype_variant_seed(&self) -> (r: ChildrenDeserializer<'d, 'a>)
        ensures
            r.nodes() == self.nodes(),
            r.remaining() == seq![self.node()],
    {
        proof {
            use_type_invariant(self);
        }
        ChildrenDeserializer::one(self.doc, self.node)
    }

    /// A tuple variant reads its elements from the node's children.
    pub fn tuple_variant(&self) -> (r: ChildrenDeserializer<'d, 'a>)
        ensures
            r.nodes() == self.nodes(),
            r.remaining() == self.nodes()[self.node() as int].children@,
    {
        proof {
            use_type_invariant(self);
        }
        let node = self.doc.node(self.node);
        let ids = node.children.clone();
        assert(ids@ =~= node.children@);
        ChildrenDeserializer::new(self.doc, ids)
    }

    /// A struct variant reads its fields from the node by the table.
    pub fn struct_variant(&self, fields: Vec<&'a str>) -> (r: NodeMapAccess<'d, 'a>)
        ensures
            r.nodes() == self.nodes(),
            r.node() == self.node(),
            r.fields_left() == fields@,
    {
        proof {
            use_type_invariant(self);
        }
        NodeMapAccess::new(self.doc, fields, self.node)
    }
}

} // verus!
