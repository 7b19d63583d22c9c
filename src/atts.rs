//! Setting a pattern's fields from its parsed attributes.
use vstd::prelude::*;

use crate::attributes::{AspectRatio, Common, CoordUnits, Transform, ViewBox, ViewBoxState};
use crate::pattern::NodePattern;

verus! {

/// One attribute of a pattern element, with its parsed value.
#[derive(Clone, Copy, Debug, PartialEq, Eq, Structural)]
pub enum PatternAttribute {
    PatternUnits(CoordUnits),
    PatternContentUnits(CoordUnits),
    ViewBox(ViewBox),
    PreserveAspectRatio(AspectRatio),
    PatternTransform(Transform),
    /// The fallback reference, as the document index of the fragment.
    Href(usize),
    X(i64),
    Y(i64),
    Width(i64),
    Height(i64),
    /// An attribute that patterns ignore.
    Other,
}

/// An attribute value that patterns refuse.
#[derive(Clone, Copy, Debug, PartialEq, Eq, Structural)]
pub enum AttributeError {
    NegativeWidth(i64),
    NegativeHeight(i64),
}

/// The pattern after one attribute, or the error it raises.
pub open spec fn spec_apply_attribute(p: NodePattern, a: PatternAttribute) -> Result<NodePattern, AttributeError> {
    match a {
        PatternAttribute::PatternUnits(u) => Ok(NodePattern { common: Common { units: Some(u), ..p.common }, ..p }),
        PatternAttribute::PatternContentUnits(u) => Ok(
            NodePattern { common: Common { content_units: Some(u), ..p.common }, ..p },
        ),
        PatternAttribute::ViewBox(vb) => Ok(
            NodePattern { common: Common { view_box: ViewBoxState::Present(vb), ..p.common }, ..p },
        ),
        PatternAttribute::PreserveAspectRatio(ar) => Ok(
            NodePattern { common: Common { preserve_aspect_ratio: Some(ar), ..p.common }, ..p },
        ),
        PatternAttribute::PatternTransform(t) => Ok(
            NodePattern { common: Common { transform: Some(t), ..p.common }, ..p },
        ),
        PatternAttribute::Href(f) => Ok(NodePattern { fallback: Some(f), ..p }),
        PatternAttribute::X(v) => Ok(
            NodePattern { common: Common { x: Some(v), ..p.common }, ..p },
        ),
        PatternAttribute::Y(v) => Ok(
            NodePattern { common: Common { y: Some(v), ..p.common }, ..p },
        ),
        PatternAttribute::Width(v) => if v < 0 {
            Err(AttributeError::NegativeWidth(v))
        } else {
            Ok(NodePattern { common: Common { width: Some(v), ..p.common }, ..p })
        },
        PatternAttribute::Height(v) => if v < 0 {
            Err(AttributeError::NegativeHeight(v))
        } else {
            Ok(NodePattern { common: Common { height: Some(v), ..p.common }, ..p })
        },
        PatternAttribute::Other => Ok(p),
    }
}

/// The pattern after the first `n` attributes, in order, and the error that
/// stopped the walk, if any; fields set before an error stay set.
pub open spec fn spec_apply_attributes(p: NodePattern, atts: Seq<PatternAttribute>, n: nat) -> (
    NodePattern,
    Option<AttributeError>,
)
    decreases n,
{
    if n == 0 {
        (p, None)
    } else {
        let (q, e) = spec_apply_attributes(p, atts, (n - 1) as nat);
        if e is Some {
            (q, e)
        } else {
            match spec_apply_attribute(q, atts[n - 1]) {
                Ok(q2) => (q2, None),
                Err(err) => (q, Some(err)),
            }
        }
    }
}

impl NodePattern {
    /// Sets the fields named by `atts`, in order; a later attribute
    /// overrides an earlier one. A negative width or height stops the walk
    /// with an error.
    pub fn set_atts(&mut self, atts: &Vec<PatternAttribute>) -> (r: Result<(), AttributeError>)
        ensures
            ({
                let (q, e) = spec_apply_attributes(*old(self), atts@, atts@.len());
                &&& *final(self) == q
                &&& match e {
                    Some(err) => r == Err::<(), AttributeError>(err),
                    None => r is Ok,
                }
            }),
    {
        let mut i: usize = 0;
        while i < atts.len()
            invariant
                0 <= i <= atts@.len(),
                spec_apply_attributes(*old(self), atts@, i as nat) == (*self, None::<AttributeError>),
            decreases atts@.len() - i,
        {
            match atts[i] {
                PatternAttribute::PatternUnits(u) => self.common.units = Some(u),
                PatternAttribute::PatternContentUnits(u) => self.common.content_units = Some(u),
                PatternAttribute::ViewBox(vb) => self.common.view_box = ViewBoxState::Present(vb),
                PatternAttribute::PreserveAspectRatio(ar) => self.common.preserve_aspect_ratio = Some(ar),
                PatternAttribute::PatternTransform(t) => self.common.transform = Some(t),
                PatternAttribute::Href(f) => self.fallback = Some(f),
                PatternAttribute::X(v) => self.common.x = Some(v),
                PatternAttribute::Y(v) => self.common.y = Some(v),
                PatternAttribute::Width(v) => {
                    if v < 0 {
                        proof {
                            assert(spec_apply_attributes(*old(self), atts@, (i + 1) as nat).1 == Some(AttributeError::NegativeWidth(v)));
                            lemma_error_stays(*old(self), atts@, (i + 1) as nat, atts@.len());
                        }
                        return Err(AttributeError::NegativeWidth(v));
                    }
                    self.common.width = Some(v);
                },
                PatternAttribute::Height(v) => {
                    if v < 0 {
                        proof {
                            assert(spec_apply_attributes(*old(self), atts@, (i + 1) as nat).1 == Some(AttributeError::NegativeHeight(v)));
                            lemma_error_stays(*old(self), atts@, (i + 1) as nat, atts@.len());
                        }
                        return Err(AttributeError::NegativeHeight(v));
                    }
                    self.common.height = Some(v);
                },
                PatternAttribute::Other => {},
            }
            i = i + 1;
        }
        Ok(())
    }
}

/// After an error, the later attributes change nothing.
proof fn lemma_error_stays(p: NodePattern, atts: Seq<PatternAttribute>, n: nat, m: nat)
    requires
        n <= m,
        spec_apply_attributes(p, atts, n).1 is Some,
    ensures
        spec_apply_attributes(p, atts, m) == spec_apply_attributes(p, atts, n),
    decreases m - n,
{
    if n < m {
        lemma_error_stays(p, atts, n, (m - 1) as nat);
    }
}

} // verus!
