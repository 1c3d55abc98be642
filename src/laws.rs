//! Properties that hold of every configuration and every tree.
use crate::ast::{DiagnosticView, Expr, MemberProp, Node, OptChainBase, Pat, Span};
use crate::path::{chain_has_computed, chain_path, resolve};
use crate::transform::{
    dedup, destructuring_diagnostics, node_diagnostics, nodes_diagnostics,
    optional_chain_diagnostic, EnforceDirectAccessTransformer,
};
use vstd::prelude::*;

verus! {

/// When the policy store built from the configured paths is empty, the
/// checker reports nothing, whatever nodes it visits.
pub proof fn lemma_empty_policy_reports_nothing(configured: Seq<Seq<char>>, nodes: Seq<Node>)
    requires
        dedup(configured).len() == 0,
    ensures
        nodes_diagnostics(dedup(configured), nodes) == Seq::<DiagnosticView>::empty(),
    decreases nodes.len(),
{
    let paths = dedup(configured);
    if nodes.len() > 0 {
        lemma_empty_policy_reports_nothing(configured, nodes.drop_last());
        assert(node_diagnostics(paths, nodes.last()) =~= Seq::<DiagnosticView>::empty());
        assert(nodes_diagnostics(paths, nodes) =~= Seq::<DiagnosticView>::empty());
    }
}

/// Path resolution is a function of the expression alone: equal expressions
/// resolve to the same path and the same optional-chaining flag.
pub proof fn lemma_resolution_deterministic(e1: Expr, e2: Expr)
    requires
        e1 == e2,
    ensures
        resolve(e1) == resolve(e2),
{
}

/// An expression whose member chain holds a computed access has no path.
pub proof fn lemma_computed_unresolvable(e: Expr)
    requires
        chain_has_computed(e),
    ensures
        chain_path(e) is None,
        resolve(e) is None,
    decreases e,
{
    match e {
        Expr::Member { obj, prop } => {
            if prop != MemberProp::Computed {
                lemma_computed_unresolvable(*obj);
            }
        },
        Expr::OptChain { span, base } => match base {
            OptChainBase::Member { obj, prop } => {
                if prop != MemberProp::Computed {
                    lemma_computed_unresolvable(*obj);
                }
            },
            OptChainBase::Call => {},
        },
        _ => {},
    }
}

/// A computed access anywhere in the object chain of an optional chain, or
/// in the initializer of a destructuring, never leads to a diagnostic.
pub proof fn lemma_computed_never_reported(
    paths: Seq<Seq<char>>,
    obj: Expr,
    prop: MemberProp,
    span: Span,
    pat: Pat,
)
    requires
        chain_has_computed(obj),
    ensures
        optional_chain_diagnostic(
            paths,
            Expr::OptChain { span, base: OptChainBase::Member { obj: Box::new(obj), prop } },
            span,
        ) is None,
        destructuring_diagnostics(paths, pat, obj, span) == Seq::<DiagnosticView>::empty(),
{
    lemma_computed_unresolvable(obj);
}

/// Running the checker a second time over the same nodes reports exactly
/// the ordered list that the first run reported.
pub proof fn lemma_second_run_repeats_first(
    before: EnforceDirectAccessTransformer,
    once: EnforceDirectAccessTransformer,
    twice: EnforceDirectAccessTransformer,
    nodes: Seq<Node>,
)
    requires
        once.paths() == before.paths(),
        once.reported() == before.reported() + nodes_diagnostics(before.paths(), nodes),
        twice.paths() == once.paths(),
        twice.reported() == once.reported() + nodes_diagnostics(once.paths(), nodes),
    ensures
        twice.reported().subrange(once.reported().len() as int, twice.reported().len() as int)
            == once.reported().subrange(
            before.reported().len() as int,
            once.reported().len() as int,
        ),
{
    assert(twice.reported().subrange(once.reported().len() as int, twice.reported().len() as int)
        =~= nodes_diagnostics(before.paths(), nodes));
    assert(once.reported().subrange(before.reported().len() as int, once.reported().len() as int)
        =~= nodes_diagnostics(before.paths(), nodes));
}

} // verus!
