//! Type-directed reading of a parsed XML element tree.
//!
//! The tree is held in a [`Document`]: an arena of nodes, each with a tag,
//! an optional namespace, attributes, child ids and an optional text.
//! A [`ChildrenDeserializer`] is a forward-only cursor over sibling nodes;
//! it answers one request of shape at a time (a scalar, an option, a unit,
//! a sequence, a struct, an enum), hands struct fields to a [`NodeMapAccess`]
//! and enum variants to a [`NodeEnumAccess`], and bottoms out in a
//! [`TextDeserializer`] that parses a single text span.
mod children;
mod error;
mod fields;
mod laws;
mod node;
mod text;
mod variant;

pub use children::ChildrenDeserializer;
pub use fields::{field_token, FieldToken, FieldValue, NodeMapAccess};
pub use error::Error;
pub use laws::{
    lemma_absent_leaf, lemma_attribute_precedence, lemma_requests_deterministic,
    lemma_resolution_deterministic, lemma_tag_lookup_by_name_only, lemma_tag_lookup_order_free,
};
pub use node::{Attribute, Document, Node};
pub use text::TextDeserializer;
pub use variant::NodeEnumAccess;

use vstd::prelude::*;

verus! {

/// The kind of node a request met, as reported in errors.
#[derive(Debug, Clone, Copy, PartialEq, Eq, Structural)]
pub enum NodeKind {
    Text,
    Elem,
}

impl NodeKind {
    /// A short human-readable name of the kind.
    pub fn message(&self) -> (r: String)
        ensures
            r@ == node_kind_name(*self),
    {
        match self {
            NodeKind::Text => String::from_str("text node"),
            NodeKind::Elem => String::from_str("xml node"),
        }
    }
}

pub open spec fn node_kind_name(k: NodeKind) -> Seq<char> {
    match k {
        NodeKind::Text => "text node"@,
        NodeKind::Elem => "xml node"@,
    }
}

} // verus!
