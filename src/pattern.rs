//! Pattern nodes, the document that holds them, and the merging of a
//! fallback chain into one fully-specified definition.
use vstd::prelude::*;

use crate::attributes::{spec_default_common, spec_unset_common, Common};

verus! {

/// A pattern definition. `node` is the index of the tree node whose children
/// give the pattern's content (`None`: an empty pattern); `fallback` is the
/// fragment, an index into the document, of the pattern that supplies what
/// this one leaves unset.
#[derive(Clone, Copy, Debug, PartialEq, Eq, Structural)]
pub struct NodePattern {
    pub common: Common,
    pub node: Option<usize>,
    pub fallback: Option<usize>,
}

/// A node of the document tree: its pattern data, if it is a pattern, and
/// whether it has children to draw.
#[derive(Clone, Copy, Debug, PartialEq, Eq, Structural)]
pub struct DocNode {
    pub pattern: Option<NodePattern>,
    pub has_children: bool,
}

/// The document: its nodes, addressed by index.
pub struct Document {
    pub nodes: Vec<DocNode>,
}

/// The one error of resolution, naming the fragment met a second time.
#[derive(Clone, Copy, Debug, PartialEq, Eq, Structural)]
pub enum PaintServerError {
    CircularReference(usize),
}

impl View for Document {
    type V = Seq<DocNode>;

    open spec fn view(&self) -> Seq<DocNode> {
        self.nodes@
    }
}

/// The pattern that a lookup of `fragment` gives: the pattern of that node,
/// whose content candidate is the node itself; nothing for an index out of
/// range or a node that is no pattern.
pub open spec fn spec_acquire(doc: Seq<DocNode>, fragment: usize) -> Option<NodePattern> {
    if fragment < doc.len() {
        match doc[fragment as int].pattern {
            Some(p) => Some(NodePattern { node: Some(fragment), ..p }),
            None => None,
        }
    } else {
        None
    }
}

impl Document {
    pub fn new() -> (r: Document)
        ensures
            r@ == Seq::<DocNode>::empty(),
    {
        Document { nodes: Vec::new() }
    }

    /// Appends a node and returns its index.
    pub fn add_node(&mut self, pattern: Option<NodePattern>, has_children: bool) -> (r: usize)
        requires
            old(self)@.len() < usize::MAX,
        ensures
            r == old(self)@.len(),
            final(self)@ == old(self)@.push(DocNode { pattern, has_children }),
    {
        let r = self.nodes.len();
        self.nodes.push(DocNode { pattern, has_children });
        r
    }

    /// Looks up the pattern node named by `fragment`.
    pub fn acquire(&self, fragment: usize) -> (r: Option<NodePattern>)
        ensures
            r == spec_acquire(self@, fragment),
    {
        if fragment < self.nodes.len() {
            match self.nodes[fragment].pattern {
                Some(p) => Some(NodePattern { node: Some(fragment), ..p }),
                None => None,
            }
        } else {
            None
        }
    }
}

impl NodePattern {
    /// A pattern with no field set, no content and no fallback.
    pub open spec fn spec_unset() -> NodePattern {
        NodePattern { common: spec_unset_common(), node: None, fallback: None }
    }

    /// The content search is over: the candidate has children, or there is
    /// no candidate.
    pub open spec fn spec_children_are_resolved(self, doc: Seq<DocNode>) -> bool {
        match self.node {
            Some(i) => i < doc.len() && doc[i as int].has_children,
            None => true,
        }
    }

    pub open spec fn spec_is_resolved(self, doc: Seq<DocNode>) -> bool {
        self.common.spec_is_complete() && self.spec_children_are_resolved(doc)
    }

    /// One merge step with the pattern that the fallback reference named.
    pub open spec fn spec_from_fallback(self, doc: Seq<DocNode>, fallback: NodePattern) -> NodePattern {
        NodePattern {
            common: self.common.spec_or(fallback.common),
            node: if self.spec_children_are_resolved(doc) {
                self.node
            } else {
                fallback.node
            },
            fallback: fallback.fallback,
        }
    }

    /// The final step: defaults for what is unset, and no content unless
    /// the candidate has children.
    pub open spec fn spec_from_defaults(self, doc: Seq<DocNode>) -> NodePattern {
        NodePattern {
            common: self.common.spec_or(spec_default_common()),
            node: if self.spec_children_are_resolved(doc) {
                self.node
            } else {
                None
            },
            fallback: None,
        }
    }

    pub fn default() -> (r: NodePattern)
        ensures
            r == NodePattern::spec_unset(),
    {
        NodePattern { common: Common::unset(), node: None, fallback: None }
    }

    /// Content drawn into a pattern tile is clipped to the tile.
    pub fn overflow_hidden(&self) -> (r: bool)
        ensures
            r,
    {
        true
    }

    pub fn children_are_resolved(&self, doc: &Document) -> (r: bool)
        ensures
            r == self.spec_children_are_resolved(doc@),
    {
        match self.node {
            Some(i) => i < doc.nodes.len() && doc.nodes[i].has_children,
            None => true,
        }
    }

    pub fn is_resolved(&self, doc: &Document) -> (r: bool)
        ensures
            r == self.spec_is_resolved(doc@),
    {
        self.common.is_complete() && self.children_are_resolved(doc)
    }

    pub fn resolve_from_fallback(&self, doc: &Document, fallback: &NodePattern) -> (r: NodePattern)
        ensures
            r == self.spec_from_fallback(doc@, *fallback),
            self.common.spec_kept_in(r.common),
            self.common.spec_filled_in(fallback.common, r.common),
    {
        let common = self.common.or(&fallback.common);
        let node = if self.children_are_resolved(doc) {
            self.node
        } else {
            fallback.node
        };
        NodePattern { common, node, fallback: fallback.fallback }
    }

    pub fn resolve_from_defaults(&self, doc: &Document) -> (r: NodePattern)
        ensures
            r == self.spec_from_defaults(doc@),
            r.spec_is_resolved(doc@),
            self.common.spec_kept_in(r.common),
    {
        let common = self.common.or(&Common::defaults());
        let node = if self.children_are_resolved(doc) {
            self.node
        } else {
            None
        };
        NodePattern { common, node, fallback: None }
    }
}

} // verus!
