//! Merging a fallback chain into one fully-specified pattern.
use vstd::prelude::*;
use vstd::set_lib::{lemma_int_range, lemma_len_subset, set_int_range};

use crate::attributes::{lemma_kept_transitive, lemma_or_keeps, spec_default_common};
use crate::pattern::{spec_acquire, DocNode, Document, NodePattern, PaintServerError};

verus! {

/// The outcome of resolving `res` after the fragments of `visited` were
/// merged, within `fuel` steps: `None` when the steps ran out.
pub open spec fn resolve_chain(
    doc: Seq<DocNode>,
    res: NodePattern,
    visited: Seq<usize>,
    fuel: nat,
) -> Option<Result<NodePattern, PaintServerError>>
    decreases fuel,
{
    if res.spec_is_resolved(doc) {
        Some(Ok(res))
    } else if fuel == 0 {
        None
    } else {
        match res.fallback {
            Some(f) => match spec_acquire(doc, f) {
                Some(fb) => if visited.contains(f) {
                    Some(Err(PaintServerError::CircularReference(f)))
                } else {
                    resolve_chain(doc, res.spec_from_fallback(doc, fb), visited.push(f), (fuel - 1) as nat)
                },
                None => resolve_chain(doc, res.spec_from_defaults(doc), visited, (fuel - 1) as nat),
            },
            None => resolve_chain(doc, res.spec_from_defaults(doc), visited, (fuel - 1) as nat),
        }
    }
}

/// The pattern that resolution starts from: the attributes of `p`, with the
/// tree node `node` as content candidate.
pub open spec fn spec_start(p: NodePattern, node: usize) -> NodePattern {
    NodePattern { node: Some(node), ..p }
}

/// What resolving `p`, found at `node`, gives: at most one merge step per
/// node of the document, and one final step.
pub open spec fn spec_resolution(doc: Seq<DocNode>, p: NodePattern, node: usize) -> Option<
    Result<NodePattern, PaintServerError>,
> {
    resolve_chain(doc, spec_start(p, node), Seq::empty(), (doc.len() + 1) as nat)
}

/// The fragments on a visited stack are distinct pattern nodes.
pub open spec fn valid_stack(doc: Seq<DocNode>, visited: Seq<usize>) -> bool {
    &&& visited.no_duplicates()
    &&& forall|k: int| 0 <= k < visited.len() ==> (#[trigger] visited[k]) < doc.len()
}

/// Distinct indices below `n` number at most `n`.
proof fn lemma_stack_bound(doc: Seq<DocNode>, visited: Seq<usize>)
    requires
        valid_stack(doc, visited),
    ensures
        visited.len() <= doc.len(),
{
    let ints = visited.map_values(|v: usize| v as int);
    assert(ints.no_duplicates()) by {
        assert forall|i: int, j: int|
            0 <= i < ints.len() && 0 <= j < ints.len() && i != j implies ints[i] != ints[j] by {
            assert(visited[i] != visited[j]);
        }
    }
    ints.unique_seq_to_set();
    lemma_int_range(0, doc.len() as int);
    assert(ints.to_set().subset_of(set_int_range(0, doc.len() as int))) by {
        assert forall|x: int| ints.to_set().contains(x) implies set_int_range(
            0,
            doc.len() as int,
        ).contains(x) by {
            let k = choose|k: int| 0 <= k < ints.len() && ints[k] == x;
            assert(visited[k] < doc.len());
        }
    }
    lemma_len_subset(ints.to_set(), set_int_range(0, doc.len() as int));
}

/// Once the chain resolves within some number of steps, more steps change
/// nothing.
pub proof fn lemma_fuel_mono(doc: Seq<DocNode>, res: NodePattern, visited: Seq<usize>, f1: nat, f2: nat)
    requires
        resolve_chain(doc, res, visited, f1) is Some,
        f1 <= f2,
    ensures
        resolve_chain(doc, res, visited, f2) == resolve_chain(doc, res, visited, f1),
    decreases f1,
{
    if !res.spec_is_resolved(doc) && f1 > 0 {
        match res.fallback {
            Some(f) => match spec_acquire(doc, f) {
                Some(fb) => if !visited.contains(f) {
                    lemma_fuel_mono(doc, res.spec_from_fallback(doc, fb), visited.push(f), (f1 - 1) as nat, (f2 - 1) as nat);
                },
                None => lemma_fuel_mono(doc, res.spec_from_defaults(doc), visited, (f1 - 1) as nat, (f2 - 1) as nat),
            },
            None => lemma_fuel_mono(doc, res.spec_from_defaults(doc), visited, (f1 - 1) as nat, (f2 - 1) as nat),
        }
    }
}

/// Termination: from a stack of distinct visited nodes, resolution ends
/// within one step per node not yet visited, plus one final step.
pub proof fn lemma_resolution_terminates(doc: Seq<DocNode>, res: NodePattern, visited: Seq<usize>, fuel: nat)
    requires
        valid_stack(doc, visited),
        fuel >= doc.len() - visited.len() + 1,
    ensures
        resolve_chain(doc, res, visited, fuel) is Some,
    decreases fuel,
{
    lemma_stack_bound(doc, visited);
    if !res.spec_is_resolved(doc) {
        let d = res.spec_from_defaults(doc);
        lemma_or_keeps(res.common, spec_default_common());
        match res.fallback {
            Some(f) => match spec_acquire(doc, f) {
                Some(fb) => if !visited.contains(f) {
                    let v2 = visited.push(f);
                    assert(valid_stack(doc, v2)) by {
                        assert forall|k: int| 0 <= k < v2.len() implies (#[trigger] v2[k]) < doc.len() by {
                            if k < visited.len() {
                                assert(v2[k] == visited[k]);
                            }
                        }
                    }
                    lemma_resolution_terminates(doc, res.spec_from_fallback(doc, fb), v2, (fuel - 1) as nat);
                },
                None => {
                    assert(resolve_chain(doc, d, visited, (fuel - 1) as nat) is Some);
                },
            },
            None => {
                assert(resolve_chain(doc, d, visited, (fuel - 1) as nat) is Some);
            },
        }
    }
}

fn contains(stack: &Vec<usize>, f: usize) -> (r: bool)
    ensures
        r == stack@.contains(f),
{
    let mut i: usize = 0;
    while i < stack.len()
        invariant
            0 <= i <= stack@.len(),
            forall|k: int| 0 <= k < i ==> stack@[k] != f,
        decreases stack@.len() - i,
    {
        if stack[i] == f {
            return true;
        }
        i = i + 1;
    }
    false
}

/// Along a chain, each field once set keeps its value to the end.
proof fn lemma_chain_keeps(doc: Seq<DocNode>, res: NodePattern, visited: Seq<usize>, fuel: nat)
    ensures
        resolve_chain(doc, res, visited, fuel) matches Some(Ok(r)) ==> res.common.spec_kept_in(
            r.common,
        ),
        resolve_chain(doc, res, visited, fuel) matches Some(Ok(r)) ==> (res.node matches Some(
            i,
        ) && i < doc.len() && doc[i as int].has_children ==> r.node == res.node),
    decreases fuel,
{
    if !res.spec_is_resolved(doc) && fuel > 0 {
        match res.fallback {
            Some(f) => match spec_acquire(doc, f) {
                Some(fb) => if !visited.contains(f) {
                    let next = res.spec_from_fallback(doc, fb);
                    lemma_chain_keeps(doc, next, visited.push(f), (fuel - 1) as nat);
                    lemma_or_keeps(res.common, fb.common);
                    if let Some(Ok(r)) = resolve_chain(doc, res, visited, fuel) {
                        lemma_kept_transitive(res.common, next.common, r.common);
                    }
                },
                None => {
                    let next = res.spec_from_defaults(doc);
                    lemma_chain_keeps(doc, next, visited, (fuel - 1) as nat);
                    lemma_or_keeps(res.common, spec_default_common());
                    if let Some(Ok(r)) = resolve_chain(doc, res, visited, fuel) {
                        lemma_kept_transitive(res.common, next.common, r.common);
                    }
                },
            },
            None => {
                let next = res.spec_from_defaults(doc);
                lemma_chain_keeps(doc, next, visited, (fuel - 1) as nat);
                lemma_or_keeps(res.common, spec_default_common());
                if let Some(Ok(r)) = resolve_chain(doc, res, visited, fuel) {
                    lemma_kept_transitive(res.common, next.common, r.common);
                }
            },
        }
    }
}

/// A pattern with no field set and no fallback resolves to the default
/// values, and the outcome is resolved.
pub proof fn lemma_defaults_closure(doc: Seq<DocNode>, node: usize)
    ensures
        spec_resolution(doc, NodePattern::spec_unset(), node) matches Some(Ok(r)) && r.common
            == spec_default_common() && r.spec_is_resolved(doc),
{
    let start = spec_start(NodePattern::spec_unset(), node);
    let d = start.spec_from_defaults(doc);
    lemma_or_keeps(start.common, spec_default_common());
    assert(d.common == spec_default_common());
    assert(resolve_chain(doc, d, Seq::empty(), doc.len() as nat) == Some(
        Ok::<NodePattern, PaintServerError>(d),
    ));
}

/// A field that the starting pattern sets keeps its value in the resolved
/// pattern, whatever its fallbacks set.
pub proof fn lemma_override_precedence(doc: Seq<DocNode>, p: NodePattern, node: usize)
    ensures
        spec_resolution(doc, p, node) matches Some(Ok(r)) ==> p.common.spec_kept_in(r.common),
{
    lemma_chain_keeps(doc, spec_start(p, node), Seq::empty(), (doc.len() + 1) as nat);
}

/// A field that the starting pattern leaves unset and its fallback sets has
/// the fallback's value in the resolved pattern.
pub proof fn lemma_fallback_fill(doc: Seq<DocNode>, p: NodePattern, node: usize, f: usize)
    requires
        p.fallback == Some(f),
        spec_acquire(doc, f) is Some,
    ensures
        spec_resolution(doc, p, node) matches Some(Ok(r)) ==> p.common.spec_filled_in(
            spec_acquire(doc, f)->Some_0.common,
            r.common,
        ),
{
    let start = spec_start(p, node);
    let fb = spec_acquire(doc, f)->Some_0;
    if !start.spec_is_resolved(doc) {
        let next = start.spec_from_fallback(doc, fb);
        let v: Seq<usize> = Seq::empty();
        assert(!v.contains(f));
        assert(resolve_chain(doc, start, v, (doc.len() + 1) as nat) == resolve_chain(
            doc,
            next,
            v.push(f),
            doc.len() as nat,
        ));
        lemma_chain_keeps(doc, next, v.push(f), doc.len() as nat);
        lemma_or_keeps(p.common, fb.common);
    }
}

/// A starting node with children supplies the content, whatever the depth of
/// its fallbacks.
pub proof fn lemma_own_content(doc: Seq<DocNode>, p: NodePattern, node: usize)
    requires
        node < doc.len(),
        doc[node as int].has_children,
    ensures
        spec_resolution(doc, p, node) matches Some(Ok(r)) ==> r.node == Some(node),
{
    lemma_chain_keeps(doc, spec_start(p, node), Seq::empty(), (doc.len() + 1) as nat);
}

/// A starting node without children takes its content from a fallback that
/// has children.
pub proof fn lemma_inherited_content(doc: Seq<DocNode>, p: NodePattern, node: usize, f: usize)
    requires
        node < doc.len(),
        !doc[node as int].has_children,
        p.fallback == Some(f),
        spec_acquire(doc, f) is Some,
        doc[f as int].has_children,
    ensures
        spec_resolution(doc, p, node) matches Some(Ok(r)) ==> r.node == Some(f),
{
    let start = spec_start(p, node);
    let fb = spec_acquire(doc, f)->Some_0;
    let next = start.spec_from_fallback(doc, fb);
    let v: Seq<usize> = Seq::empty();
    assert(!v.contains(f));
    lemma_chain_keeps(doc, next, v.push(f), doc.len() as nat);
}

/// Two patterns without children that name each other as fallback, and that
/// leave a field unset between them, fail on the second: it is the first
/// fragment met twice.
pub proof fn lemma_cycle_detected(doc: Seq<DocNode>, a: usize, b: usize)
    requires
        a < doc.len(),
        b < doc.len(),
        a != b,
        doc[a as int].pattern matches Some(pa) && pa.fallback == Some(b),
        doc[b as int].pattern matches Some(pb) && pb.fallback == Some(a),
        !doc[a as int].has_children,
        !doc[b as int].has_children,
        !doc[a as int].pattern->Some_0.common.spec_or(
            doc[b as int].pattern->Some_0.common,
        ).spec_is_complete(),
    ensures
        spec_resolution(doc, doc[a as int].pattern->Some_0, a) == Some(
            Err::<NodePattern, PaintServerError>(PaintServerError::CircularReference(b)),
        ),
{
    let pa = doc[a as int].pattern->Some_0;
    let pb = doc[b as int].pattern->Some_0;
    let s0 = spec_start(pa, a);
    let fa = spec_acquire(doc, a)->Some_0;
    let fb = spec_acquire(doc, b)->Some_0;
    let s1 = s0.spec_from_fallback(doc, fb);
    let s2 = s1.spec_from_fallback(doc, fa);
    let v0: Seq<usize> = Seq::empty();
    let v1 = v0.push(b);
    let v2 = v1.push(a);
    let n = doc.len() as int;
    assert(!v0.contains(b));
    assert(!v1.contains(a)) by {
        assert(v1[0] == b);
    }
    assert(v2.contains(b)) by {
        assert(v2[0] == b);
    }
    assert(!s2.common.spec_is_complete());
    assert(resolve_chain(doc, s2, v2, (n - 1) as nat) == Some(
        Err::<NodePattern, PaintServerError>(PaintServerError::CircularReference(b)),
    ));
    assert(resolve_chain(doc, s1, v1, n as nat) == resolve_chain(doc, s2, v2, (n - 1) as nat));
    assert(resolve_chain(doc, s0, v0, (n + 1) as nat) == resolve_chain(doc, s1, v1, n as nat));
}

impl NodePattern {
    /// Resolves this pattern, found at tree node `node`, by merging in its
    /// fallback chain until every field is set and the content search is
    /// over.
    pub fn resolve(&self, node: usize, doc: &Document) -> (r: Result<NodePattern, PaintServerError>)
        ensures
            spec_resolution(doc@, *self, node) == Some(r),
            r is Ok ==> r->Ok_0.spec_is_resolved(doc@),
    {
        let mut result = NodePattern { node: Some(node), ..*self };
        let mut stack: Vec<usize> = Vec::new();
        let ghost total = (doc@.len() + 1) as nat;
        proof {
            lemma_resolution_terminates(doc@, result, stack@, total);
        }
        while !result.is_resolved(doc)
            invariant
                valid_stack(doc@, stack@),
                stack@.len() <= doc@.len(),
                resolve_chain(doc@, result, stack@, (doc@.len() + 1 - stack@.len()) as nat)
                    == spec_resolution(doc@, *self, node),
                spec_resolution(doc@, *self, node) is Some,
            decreases (doc@.len() + 1 - stack@.len()) * 2 + (if result.spec_is_resolved(doc@) {
                0int
            } else {
                1int
            }),
        {
            let ghost fuel = (doc@.len() + 1 - stack@.len()) as nat;
            let mut acquired: Option<NodePattern> = None;
            if let Some(f) = result.fallback {
                acquired = doc.acquire(f);
            }
            match acquired {
                Some(fb) => {
                    let f = fb.node.unwrap();
                    proof {
                        assert(result.fallback == Some(f));
                    }
                    if contains(&stack, f) {
                        return Err(PaintServerError::CircularReference(f));
                    }
                    let ghost old_stack = stack@;
                    result = result.resolve_from_fallback(doc, &fb);
                    stack.push(f);
                    proof {
                        assert(valid_stack(doc@, stack@)) by {
                            assert forall|k: int| 0 <= k < stack@.len() implies (#[trigger] stack@[k])
                                < doc@.len() by {
                                if k < old_stack.len() {
                                    assert(stack@[k] == old_stack[k]);
                                }
                            }
                        }
                        lemma_stack_bound(doc@, stack@);
                    }
                },
                None => {
                    result = result.resolve_from_defaults(doc);
                    proof {
                        assert(resolve_chain(doc@, result, stack@, (fuel - 1) as nat) == Some(
                            Ok::<NodePattern, PaintServerError>(result),
                        ));
                    }
                },
            }
        }
        Ok(result)
    }
}

} // verus!
