use crate::error::Error;
use crate::fields::NodeMapAccess;
use crate::node::{Document, Node};
use crate::text::TextDeserializer;
use crate::variant::NodeEnumAccess;
use crate::NodeKind;
use vstd::prelude::*;

verus! {

/// The text of the node with id `id`, if it has any.
pub open spec fn node_text<'a>(nodes: Seq<Node<'a>>, id: usize) -> Option<Seq<char>> {
    match nodes[id as int].text {
        Some(t) => Some(t@),
        None => None,
    }
}

/// The text of the first of `ids`; none where `ids` is empty.
pub open spec fn first_text<'a>(nodes: Seq<Node<'a>>, ids: Seq<usize>) -> Option<Seq<char>> {
    if ids.len() == 0 {
        None
    } else {
        node_text(nodes, ids[0])
    }
}

/// What a string request of a cursor yields: the first node's text, or
/// the empty string where there is no node or no text.
pub open spec fn str_of<'a>(nodes: Seq<Node<'a>>, ids: Seq<usize>) -> Seq<char> {
    match first_text(nodes, ids) {
        Some(t) => t,
        None => Seq::empty(),
    }
}

/// What a scalar request of a cursor yields: a leaf over the first node's
/// text, or exhaustion where there is no node or no text.
pub open spec fn scalar_of<'a>(nodes: Seq<Node<'a>>, ids: Seq<usize>) -> Result<Seq<char>, Error> {
    match first_text(nodes, ids) {
        Some(t) => Ok(t),
        None => Err(Error::NodesExhausted),
    }
}

/// All ids are ids of `nodes`.
pub open spec fn ids_in<'a>(nodes: Seq<Node<'a>>, ids: Seq<usize>) -> bool {
    forall|k: int| 0 <= k < ids.len() ==> #[trigger] ids[k] < nodes.len()
}

/// A forward-only cursor over sibling nodes of a [`Document`].
pub struct ChildrenDeserializer<'d, 'a> {
    doc: &'d Document<'a>,
    children: Vec<usize>,
    pos: usize,
}

impl<'d, 'a> ChildrenDeserializer<'d, 'a> {
    #[verifier::type_invariant]
    spec fn inv(&self) -> bool {
        &&& self.pos <= self.children@.len()
        &&& self.doc.wf()
        &&& ids_in(self.doc@, self.children@)
    }

    /// The nodes of the document the cursor walks.
    pub closed spec fn nodes(&self) -> Seq<Node<'a>> {
        self.doc@
    }

    /// The ids of the nodes not yet taken, in order.
    pub closed spec fn remaining(&self) -> Seq<usize> {
        self.children@.subrange(self.pos as int, self.children@.len() as int)
    }

    /// A cursor over the given ids of `doc`.
    pub fn new(doc: &'d Document<'a>, children: Vec<usize>) -> (r: ChildrenDeserializer<'d, 'a>)
        requires
            doc.wf(),
            ids_in(doc@, children@),
        ensures
            r.nodes() == doc@,
            r.remaining() == children@,
    {
        let r = ChildrenDeserializer { doc, children, pos: 0 };
        assert(r.remaining() =~= children@);
        r
    }

    /// A cursor over the single node `id` of `doc`.
    pub fn one(doc: &'d Document<'a>, id: usize) -> (r: ChildrenDeserializer<'d, 'a>)
        requires
            doc.wf(),
            id < doc@.len(),
        ensures
            r.nodes() == doc@,
            r.remaining() == seq![id],
    {
        let mut children: Vec<usize> = Vec::new();
        children.push(id);
        assert(children@ == seq![id]);
        ChildrenDeserializer::new(doc, children)
    }

    /// Takes the next node, if any.
    fn advance(&mut self) -> (r: Option<usize>)
        ensures
            final(self).nodes() == old(self).nodes(),
            old(self).remaining().len() == 0 ==> r is None && final(self).remaining() == old(
                self,
            ).remaining(),
            old(self).remaining().len() > 0 ==> r == Some(old(self).remaining()[0])
                && final(self).remaining() == old(self).remaining().drop_first(),
            r matches Some(id) ==> id < final(self).nodes().len(),
    {
        proof {
            use_type_invariant(&*self);
        }
        if self.pos < self.children.len() {
            let id = self.children[self.pos];
            self.pos = self.pos + 1;
            assert(self.remaining() =~= old(self).remaining().drop_first());
            Some(id)
        } else {
            None
        }
    }

    /// Takes the next node and returns it.
    pub fn into_child(self) -> (r: Option<usize>)
        ensures
            self.remaining().len() == 0 ==> r is None,
            self.remaining().len() > 0 ==> r == Some(self.remaining()[0]),
    {
        let mut c = self;
        c.advance()
    }

    /// Takes the next node and returns its text.
    pub fn into_text(self) -> (r: Option<&'a str>)
        ensures
            match r {
                Some(t) => first_text(self.nodes(), self.remaining()) == Some(t@),
                None => first_text(self.nodes(), self.remaining()) is None,
            },
    {
        let mut c = self;
        proof {
            use_type_invariant(&c);
        }
        match c.advance() {
            Some(id) => {
                c.doc.node(id).text
            },
            None => None,
        }
    }

    /// Takes the next node and returns a leaf over its text.
    pub fn into_text_deser(self) -> (r: Option<TextDeserializer<'a>>)
        ensures
            match r {
                Some(t) => first_text(self.nodes(), self.remaining()) == Some(t.spec_text()),
                None => first_text(self.nodes(), self.remaining()) is None,
            },
    {
        match self.into_text() {
            Some(t) => Some(TextDeserializer::new(t)),
            None => None,
        }
    }

    /// A scalar request: a leaf over the next node's text, to be parsed as
    /// the requested kind. Fails where no node, or no text, remains.
    pub fn deserialize_scalar(self) -> (r: Result<TextDeserializer<'a>, Error>)
        ensures
            match scalar_of(self.nodes(), self.remaining()) {
                Ok(t) => r is Ok && r->Ok_0.spec_text() == t,
                Err(e) => r == Err::<TextDeserializer<'a>, Error>(e),
            },
    {
        match self.into_text_deser() {
            Some(t) => Ok(t),
            None => Err(Error::NodesExhausted),
        }
    }

    /// A string request: the next node's text, or the empty string where
    /// there is none. This never fails.
    pub fn deserialize_str(self) -> (r: &'a str)
        ensures
            r@ == str_of(self.nodes(), self.remaining()),
    {
        match self.into_text() {
            Some(t) => t,
            None => {
                proof {
                    reveal_strlit("");
                }
                assert(""@ =~= Seq::<char>::empty());
                ""
            },
        }
    }

    /// An option request: absent where no node remains, else present as a
    /// cursor over the next node alone.
    pub fn deserialize_option(self) -> (r: Option<ChildrenDeserializer<'d, 'a>>)
        ensures
            self.remaining().len() == 0 ==> r is None,
            self.remaining().len() > 0 ==> r is Some && r->Some_0.nodes() == self.nodes()
                && r->Some_0.remaining() == seq![self.remaining()[0]],
    {
        let mut c = self;
        proof {
            use_type_invariant(&c);
        }
        match c.advance() {
            Some(id) => Some(ChildrenDeserializer::one(c.doc, id)),
            None => None,
        }
    }

    /// A unit request: succeeds only where no node remains.
    pub fn deserialize_unit(self) -> (r: Result<(), Error>)
        ensures
            self.remaining().len() == 0 ==> r is Ok,
            self.remaining().len() > 0 ==> r == Err::<(), Error>(Error::ExpectedUnit(NodeKind::Elem)),
    {
        let mut c = self;
        match c.advance() {
            Some(_) => Err(Error::ExpectedUnit(NodeKind::Elem)),
            None => Ok(()),
        }
    }

    /// The next element of a sequence: a cursor over the next node alone,
    /// or none where the cursor is exhausted.
    pub fn next_element(&mut self) -> (r: Option<ChildrenDeserializer<'d, 'a>>)
        ensures
            final(self).nodes() == old(self).nodes(),
            old(self).remaining().len() == 0 ==> r is None && final(self).remaining() == old(
                self,
            ).remaining(),
            old(self).remaining().len() > 0 ==> r is Some && r->Some_0.nodes() == old(self).nodes()
                && r->Some_0.remaining() == seq![old(self).remaining()[0]]
                && final(self).remaining() == old(self).remaining().drop_first(),
    {
        proof {
            use_type_invariant(&*self);
        }
        match self.advance() {
            Some(id) => Some(ChildrenDeserializer::one(self.doc, id)),
            None => None,
        }
    }

    /// A sequence request: one single-node cursor for each remaining node,
    /// in order, until the cursor is exhausted.
    pub fn elements(self) -> (r: Vec<ChildrenDeserializer<'d, 'a>>)
        ensures
            r@.len() == self.remaining().len(),
            forall|i: int|
                0 <= i < r@.len() ==> (#[trigger] r@[i]).nodes() == self.nodes() && r@[i].remaining()
                    == seq![self.remaining()[i]],
    {
        let ghost all = self.remaining();
        let mut c = self;
        let mut out: Vec<ChildrenDeserializer<'d, 'a>> = Vec::new();
        loop
            invariant
                all == self.remaining(),
                c.nodes() == self.nodes(),
                out@.len() + c.remaining().len() == all.len(),
                c.remaining() == all.subrange(out@.len() as int, all.len() as int),
                forall|i: int|
                    0 <= i < out@.len() ==> (#[trigger] out@[i]).nodes() == self.nodes()
                        && out@[i].remaining() == seq![all[i]],
            decreases c.remaining().len(),
        {
            match c.next_element() {
                Some(e) => {
                    out.push(e);
                    assert(c.remaining() =~= all.subrange(out@.len() as int, all.len() as int));
                },
                None => {
                    return out;
                },
            }
        }
    }

    /// A struct request: takes the next node and reads its fields by the
    /// given table.
    pub fn deserialize_struct(self, fields: Vec<&'a str>) -> (r: Result<NodeMapAccess<'d, 'a>, Error>)
        ensures
            self.remaining().len() == 0 ==> r == Err::<NodeMapAccess<'d, 'a>, Error>(
                Error::NodesExhausted,
            ),
            self.remaining().len() > 0 ==> r is Ok && r->Ok_0.nodes() == self.nodes()
                && r->Ok_0.node() == self.remaining()[0] && r->Ok_0.fields_left() == fields@,
    {
        let mut c = self;
        proof {
            use_type_invariant(&c);
        }
        match c.advance() {
            Some(id) => Ok(NodeMapAccess::new(c.doc, fields, id)),
            None => Err(Error::NodesExhausted),
        }
    }

    /// An enum request: takes the next node, whose tag names the variant.
    pub fn deserialize_enum(self) -> (r: Result<NodeEnumAccess<'d, 'a>, Error>)
        ensures
            self.remaining().len() == 0 ==> r == Err::<NodeEnumAccess<'d, 'a>, Error>(
                Error::NodesExhausted,
            ),
            self.remaining().len() > 0 ==> r is Ok && r->Ok_0.nodes() == self.nodes()
                && r->Ok_0.node() == self.remaining()[0],
    {
        let mut c = self;
        proof {
            use_type_invariant(&c);
        }
        match c.advance() {
            Some(id) => Ok(NodeEnumAccess::new(c.doc, id)),
            None => Err(Error::NodesExhausted),
        }
    }

    /// An identifier request: the tag of the next node, which is not taken.
    pub fn deserialize_identifier(&self) -> (r: Result<&'a str, Error>)
        ensures
            self.remaining().len() == 0 ==> r == Err::<&'a str, Error>(Error::NodesExhausted),
            self.remaining().len() > 0 ==> r is Ok && r->Ok_0@ == self.nodes()[self.remaining()[0] as int].tag@,
    {
        proof {
            use_type_invariant(self);
        }
        if self.pos < self.children.len() {
            Ok(self.doc.node(self.children[self.pos]).tag)
        } else {
            Err(Error::NodesExhausted)
        }
    }
}

} // verus!
