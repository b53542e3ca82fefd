use crate::children::{scalar_of, str_of, ChildrenDeserializer};
use crate::fields::{
    attribute_value, field_value_is, field_value_view, has_ns_prefix, resolve_field, tagged,
    FieldValue, Resolved,
};
use crate::error::Error;
use crate::node::Node;
use vstd::prelude::*;

verus! {

/// A field resolves the same way every time it is asked of the same tree:
/// two results that both meet the contract of
/// [`NodeMapAccess::next_value`](crate::NodeMapAccess::next_value) for the
/// same node and field hold the same value.
pub proof fn lemma_resolution_deterministic<'d, 'a>(
    nodes: Seq<Node<'a>>,
    id: usize,
    f: Seq<char>,
    r1: Result<FieldValue<'d, 'a>, Error>,
    r2: Result<FieldValue<'d, 'a>, Error>,
)
    requires
        field_value_is(r1, nodes, resolve_field(nodes, id, f)),
        field_value_is(r2, nodes, resolve_field(nodes, id, f)),
    ensures
        field_value_view(r1) == field_value_view(r2),
{
}

/// A string or scalar request depends on the document and the remaining
/// nodes alone: two cursors in the same state give the same answers.
pub proof fn lemma_requests_deterministic<'d, 'a>(
    c1: ChildrenDeserializer<'d, 'a>,
    c2: ChildrenDeserializer<'d, 'a>,
)
    requires
        c1.nodes() == c2.nodes(),
        c1.remaining() == c2.remaining(),
    ensures
        str_of(c1.nodes(), c1.remaining()) == str_of(c2.nodes(), c2.remaining()),
        scalar_of(c1.nodes(), c1.remaining()) == scalar_of(c2.nodes(), c2.remaining()),
{
}

/// A plain field name that no attribute answers selects children by tag
/// alone: a child is selected exactly when it is an element with that tag,
/// wherever it stands among its siblings; and the selected children keep
/// document order, those of an earlier run of siblings coming first.
pub proof fn lemma_tag_lookup_by_name_only<'a>(
    nodes: Seq<Node<'a>>,
    id: usize,
    f: Seq<char>,
    before: Seq<usize>,
    after: Seq<usize>,
)
    requires
        id < nodes.len(),
        f != "$text"@,
        f != "$all"@,
        !has_ns_prefix(f),
        attribute_value(nodes[id as int].attributes@, f) is None,
        nodes[id as int].children@ == before + after,
    ensures
        resolve_field(nodes, id, f) == Ok::<Resolved, Error>(
            Resolved::Nodes(before.filter(tagged(nodes, f, false)) + after.filter(tagged(nodes, f, false))),
        ),
        forall|c: usize|
            #[trigger] (before + after).filter(tagged(nodes, f, false)).contains(c) <==> ((before
                + after).contains(c) && tagged(nodes, f, false)(c)),
{
    let p = tagged(nodes, f, false);
    let s = before + after;
    Seq::filter_distributes_over_add(before, after, p);
    assert forall|c: usize| #[trigger] s.filter(p).contains(c) <==> (s.contains(c) && p(c)) by {
        if s.filter(p).contains(c) {
            s.lemma_filter_contains_rev(p, c);
            let k = choose|k: int| 0 <= k < s.filter(p).len() && s.filter(p)[k] == c;
            s.lemma_filter_pred(p, k);
        }
        if s.contains(c) && p(c) {
            let k = choose|k: int| 0 <= k < s.len() && s[k] == c;
            s.lemma_filter_contains(p, k);
        }
    }
}

/// How often `x` occurs among the elements of `s` that `p` keeps.
proof fn lemma_filter_count(s: Seq<usize>, p: spec_fn(usize) -> bool, x: usize)
    ensures
        s.filter(p).to_multiset().count(x) == if p(x) {
            s.to_multiset().count(x)
        } else {
            0
        },
    decreases s.len(),
{
    broadcast use vstd::seq_lib::group_to_multiset_ensures;

    if s.len() == 0 {
        assert(s.filter(p) =~= Seq::<usize>::empty());
    } else {
        let rest = s.drop_last();
        let last = s.last();
        lemma_filter_count(rest, p, x);
        assert(rest.push(last) == s);
        rest.lemma_filter_push(last, p);
    }
}

/// Reordering a node's children does not change which of them a tag lookup
/// selects: where two child lists hold the same ids, in any order, the
/// children that a plain field name selects are the same, counted with
/// multiplicity.
pub proof fn lemma_tag_lookup_order_free<'a>(
    nodes: Seq<Node<'a>>,
    f: Seq<char>,
    children1: Seq<usize>,
    children2: Seq<usize>,
)
    requires
        children1.to_multiset() == children2.to_multiset(),
    ensures
        children1.filter(tagged(nodes, f, false)).to_multiset() == children2.filter(
            tagged(nodes, f, false),
        ).to_multiset(),
{
    let p = tagged(nodes, f, false);
    assert forall|x: usize|
        children1.filter(p).to_multiset().count(x) == #[trigger] children2.filter(
            p,
        ).to_multiset().count(x) by {
        lemma_filter_count(children1, p, x);
        lemma_filter_count(children2, p, x);
    }
    assert(children1.filter(p).to_multiset() =~= children2.filter(p).to_multiset());
}

/// An attribute wins over children of the same name: where the node has
/// an attribute named `f`, the field yields that attribute's text, whatever
/// children it has.
pub proof fn lemma_attribute_precedence<'a>(nodes: Seq<Node<'a>>, id: usize, f: Seq<char>, v: Seq<char>)
    requires
        id < nodes.len(),
        f != "$text"@,
        f != "$all"@,
        !has_ns_prefix(f),
        attribute_value(nodes[id as int].attributes@, f) == Some(v),
    ensures
        resolve_field(nodes, id, f) == Ok::<Resolved, Error>(Resolved::Text(v)),
{
}

/// An absent node is an empty string, but no scalar: a string request of an
/// exhausted cursor yields `""`, a scalar request fails with exhaustion.
pub proof fn lemma_absent_leaf<'a>(nodes: Seq<Node<'a>>, ids: Seq<usize>)
    requires
        ids.len() == 0,
    ensures
        str_of(nodes, ids) == Seq::<char>::empty(),
        scalar_of(nodes, ids) == Err::<Seq<char>, Error>(Error::NodesExhausted),
{
}

} // verus!
