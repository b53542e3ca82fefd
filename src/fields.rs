use crate::children::{ids_in, ChildrenDeserializer};
use crate::error::Error;
use crate::node::{Attribute, Document, Node};
use crate::text::TextDeserializer;
use crate::NodeKind;
use vstd::prelude::*;

verus! {

/// A field-table entry, classified.
pub enum FieldToken<'a> {
    /// `$text`: the node's own text.
    Text,
    /// `$all`: every child of the node.
    All,
    /// `$ns:<name>`: the children tagged `<name>` that carry a namespace.
    Namespaced(&'a str),
    /// Any other name: an attribute of that name, else the children so tagged.
    Name(&'a str),
}

/// `f` starts with the namespace-filter marker `$ns:`.
pub open spec fn has_ns_prefix(f: Seq<char>) -> bool {
    f.len() >= 4 && f.subrange(0, 4) == "$ns:"@
}

/// `t` is the classification of the field name `f`.
pub open spec fn token_of<'a>(f: Seq<char>, t: FieldToken<'a>) -> bool {
    if f == "$text"@ {
        t is Text
    } else if f == "$all"@ {
        t is All
    } else if has_ns_prefix(f) {
        t matches FieldToken::Namespaced(n) && n@ == f.subrange(4, f.len() as int)
    } else {
        t matches FieldToken::Name(n) && n@ == f
    }
}

/// Relies on `<str as PartialEq>::eq`: two strings are equal exactly when
/// they hold the same characters.
#[verifier::external_body]
fn same_text(a: &str, b: &str) -> (r: bool)
    ensures
        r == (a@ == b@),
{
    a == b
}

/// Classifies a field name; the reserved markers come first.
pub fn field_token<'a>(f: &'a str) -> (r: FieldToken<'a>)
    ensures
        token_of(f@, r),
{
    if same_text(f, "$text") {
        return FieldToken::Text;
    }
    if same_text(f, "$all") {
        return FieldToken::All;
    }
    let n = f.unicode_len();
    if n >= 4 && same_text(f.substring_char(0, 4), "$ns:") {
        return FieldToken::Namespaced(f.substring_char(4, n));
    }
    FieldToken::Name(f)
}

/// The value of the first attribute named `name` that has no namespace.
pub open spec fn attribute_value<'a>(attrs: Seq<Attribute<'a>>, name: Seq<char>) -> Option<Seq<char>>
    decreases attrs.len(),
{
    if attrs.len() == 0 {
        None
    } else if attrs[0].namespace is None && attrs[0].name@ == name {
        Some(attrs[0].value@)
    } else {
        attribute_value(attrs.drop_first(), name)
    }
}

/// The node `id` is an element tagged `name`, and, where `need_ns`, it
/// carries a namespace.
pub open spec fn tagged<'a>(nodes: Seq<Node<'a>>, name: Seq<char>, need_ns: bool) -> spec_fn(usize) -> bool {
    |id: usize|
        nodes[id as int].kind == NodeKind::Elem && nodes[id as int].tag@ == name && (!need_ns
            || nodes[id as int].namespace is Some)
}

/// What a field resolves to, before a shape is asked of it.
pub enum Resolved {
    /// A single text span.
    Text(Seq<char>),
    /// A run of sibling nodes, by id.
    Nodes(Seq<usize>),
}

/// What field `f` of node `id` resolves to; the first rule that applies
/// wins: `$text`, `$all`, `$ns:<name>`, an attribute, the children so tagged.
pub open spec fn resolve_field<'a>(nodes: Seq<Node<'a>>, id: usize, f: Seq<char>) -> Result<Resolved, Error> {
    let n = nodes[id as int];
    if f == "$text"@ {
        match n.text {
            Some(t) => Ok(Resolved::Text(t@)),
            None => Err(Error::ExpectedText(NodeKind::Elem)),
        }
    } else if f == "$all"@ {
        Ok(Resolved::Nodes(n.children@))
    } else if has_ns_prefix(f) {
        Ok(Resolved::Nodes(n.children@.filter(tagged(nodes, f.subrange(4, f.len() as int), true))))
    } else {
        match attribute_value(n.attributes@, f) {
            Some(v) => Ok(Resolved::Text(v)),
            None => Ok(Resolved::Nodes(n.children@.filter(tagged(nodes, f, false)))),
        }
    }
}

/// What a field yields: a leaf, or a cursor over sibling nodes.
pub enum FieldValue<'d, 'a> {
    Text(TextDeserializer<'a>),
    Nodes(ChildrenDeserializer<'d, 'a>),
}

/// What a field value holds, as a [`Resolved`].
pub open spec fn field_value_view<'d, 'a>(r: Result<FieldValue<'d, 'a>, Error>) -> Result<Resolved, Error> {
    match r {
        Ok(FieldValue::Text(t)) => Ok(Resolved::Text(t.spec_text())),
        Ok(FieldValue::Nodes(c)) => Ok(Resolved::Nodes(c.remaining())),
        Err(e) => Err(e),
    }
}

/// `r` holds `expected`, and a cursor in it walks the document `nodes`.
pub open spec fn field_value_is<'d, 'a>(
    r: Result<FieldValue<'d, 'a>, Error>,
    nodes: Seq<Node<'a>>,
    expected: Result<Resolved, Error>,
) -> bool {
    &&& field_value_view(r) == expected
    &&& (r matches Ok(FieldValue::Nodes(c)) ==> c.nodes() == nodes)
}

/// The children of a node that are elements tagged `name` (and, where
/// `need_ns`, carry a namespace), in document order.
fn select_tagged<'a>(doc: &Document<'a>, children: &Vec<usize>, name: &str, need_ns: bool) -> (r: Vec<usize>)
    requires
        doc.wf(),
        ids_in(doc@, children@),
    ensures
        r@ == children@.filter(tagged(doc@, name@, need_ns)),
        ids_in(doc@, r@),
{
    let ghost pred = tagged(doc@, name@, need_ns);
    let mut out: Vec<usize> = Vec::new();
    let mut i: usize = 0;
    while i < children.len()
        invariant
            i <= children@.len(),
            doc.wf(),
            ids_in(doc@, children@),
            pred == tagged(doc@, name@, need_ns),
            out@ == children@.take(i as int).filter(pred),
            ids_in(doc@, out@),
        decreases children@.len() - i,
    {
        let id = children[i];
        let node = doc.node(id);
        let keep = match node.kind {
            NodeKind::Elem => same_text(node.tag, name) && (!need_ns || node.namespace.is_some()),
            NodeKind::Text => false,
        };
        proof {
            assert(children@.take(i + 1) == children@.take(i as int).push(id));
            children@.take(i as int).lemma_filter_push(id, pred);
            assert(keep == pred(id));
        }
        if keep {
            out.push(id);
        }
        i = i + 1;
    }
    assert(children@.take(children@.len() as int) == children@);
    out
}

/// The value of the first attribute named `name` without a namespace.
fn find_attribute<'a>(attrs: &Vec<Attribute<'a>>, name: &str) -> (r: Option<&'a str>)
    ensures
        match r {
            Some(v) => attribute_value(attrs@, name@) == Some(v@),
            None => attribute_value(attrs@, name@) is None,
        },
{
    let mut i: usize = 0;
    assert(attrs@.skip(0) == attrs@);
    while i < attrs.len()
        invariant
            i <= attrs@.len(),
            attribute_value(attrs@, name@) == attribute_value(attrs@.skip(i as int), name@),
        decreases attrs@.len() - i,
    {
        let a = &attrs[i];
        assert(attrs@.skip(i as int)[0] == attrs@[i as int]);
        if a.namespace.is_none() && same_text(a.name, name) {
            return Some(a.value);
        }
        assert(attrs@.skip(i as int).drop_first() == attrs@.skip(i + 1));
        i = i + 1;
    }
    None
}

/// Reads the fields of one node, in the order of a field table.
pub struct NodeMapAccess<'d, 'a> {
    doc: &'d Document<'a>,
    node: usize,
    fields: Vec<&'a str>,
    pos: usize,
}

impl<'d, 'a> NodeMapAccess<'d, 'a> {
    #[verifier::type_invariant]
    spec fn inv(&self) -> bool {
        &&& self.pos <= self.fields@.len()
        &&& self.doc.wf()
        &&& self.node < self.doc@.len()
    }

    /// The nodes of the document.
    pub closed spec fn nodes(&self) -> Seq<Node<'a>> {
        self.doc@
    }

    /// The id of the node whose fields are read.
    pub closed spec fn node(&self) -> usize {
        self.node
    }

    /// The field names not yet read, in order.
    pub closed spec fn fields_left(&self) -> Seq<&'a str> {
        self.fields@.subrange(self.pos as int, self.fields@.len() as int)
    }

    /// Reads the fields of node `node` by the table `fields`.
    pub fn new(doc: &'d Document<'a>, fields: Vec<&'a str>, node: usize) -> (r: NodeMapAccess<'d, 'a>)
        requires
            doc.wf(),
            node < doc@.len(),
        ensures
            r.nodes() == doc@,
            r.node() == node,
            r.fields_left() == fields@,
    {
        let r = NodeMapAccess { doc, node, fields, pos: 0 };
        assert(r.fields_left() =~= fields@);
        r
    }

    /// The name of the next field, which is not yet taken; none once the
    /// table is used up.
    pub fn next_key(&self) -> (r: Option<&'a str>)
        ensures
            self.fields_left().len() == 0 ==> r is None,
            self.fields_left().len() > 0 ==> r == Some(self.fields_left()[0]),
    {
        proof {
            use_type_invariant(self);
        }
        if self.pos < self.fields.len() {
            Some(self.fields[self.pos])
        } else {
            None
        }
    }

    /// Takes the next field name and resolves it against the node. Fails
    /// with exhaustion once the table is used up.
    pub fn next_value(&mut self) -> (r: Result<FieldValue<'d, 'a>, Error>)
        ensures
            final(self).nodes() == old(self).nodes(),
            final(self).node() == old(self).node(),
            old(self).fields_left().len() == 0 ==> r == Err::<FieldValue<'d, 'a>, Error>(
                Error::NodesExhausted,
            ) && final(self).fields_left() == old(self).fields_left(),
            old(self).fields_left().len() > 0 ==> final(self).fields_left() == old(
                self,
            ).fields_left().drop_first() && field_value_is(
                r,
                old(self).nodes(),
                resolve_field(old(self).nodes(), old(self).node(), old(self).fields_left()[0]@),
            ),
    {
        proof {
            use_type_invariant(&*self);
        }
        if self.pos >= self.fields.len() {
            return Err(Error::NodesExhausted);
        }
        let doc = self.doc;
        let node = doc.node(self.node);
        let token = field_token(self.fields[self.pos]);
        let ghost f = self.fields@[self.pos as int]@;
        self.pos = self.pos + 1;
        assert(self.fields_left() =~= old(self).fields_left().drop_first());
        match token {
            FieldToken::Text => match node.text {
                Some(t) => Ok(FieldValue::Text(TextDeserializer::new(t))),
                None => Err(Error::ExpectedText(NodeKind::Elem)),
            },
            FieldToken::All => {
                let ids = node.children.clone();
                assert(ids@ =~= node.children@);
                Ok(FieldValue::Nodes(ChildrenDeserializer::new(doc, ids)))
            },
            FieldToken::Namespaced(name) => {
                let ids = select_tagged(doc, &node.children, name, true);
                Ok(FieldValue::Nodes(ChildrenDeserializer::new(doc, ids)))
            },
            FieldToken::Name(name) => match find_attribute(&node.attributes, name) {
                Some(v) => Ok(FieldValue::Text(TextDeserializer::new(v))),
                None => {
                    let ids = select_tagged(doc, &node.children, name, false);
                    Ok(FieldValue::Nodes(ChildrenDeserializer::new(doc, ids)))
                },
            },
        }
    }
}

} // verus!
