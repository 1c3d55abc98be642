//! Path resolution: the canonical dotted path of a member-access chain.
use crate::ast::{Expr, MemberProp, MetaPropKind, OptChainBase};
use vstd::prelude::*;

verus! {

/// `a.b`: two paths joined by a dot.
pub open spec fn dot(a: Seq<char>, b: Seq<char>) -> Seq<char> {
    a + seq!['.'] + b
}

/// The two-segment path of a meta-property.
pub open spec fn meta_path(k: MetaPropKind) -> Seq<char> {
    match k {
        MetaPropKind::ImportMeta => seq!['i', 'm', 'p', 'o', 'r', 't', '.', 'm', 'e', 't', 'a'],
        MetaPropKind::NewTarget => seq!['n', 'e', 'w', '.', 't', 'a', 'r', 'g', 'e', 't'],
    }
}

/// The dotted path of an expression's member chain and whether an
/// optional-chain link was crossed on the way, or `None` when any link of
/// the chain is of a shape other than an identifier-keyed (optional) member
/// access, an identifier or a meta-property.
pub open spec fn chain_path(e: Expr) -> Option<(Seq<char>, bool)>
    decreases e,
{
    match e {
        Expr::Ident(name) => Some((name@, false)),
        Expr::MetaProp(k) => Some((meta_path(k), false)),
        Expr::Member { obj, prop } => match prop {
            MemberProp::Ident(name) => match chain_path(*obj) {
                Some((p, opt)) => Some((dot(p, name@), opt)),
                None => None,
            },
            _ => None,
        },
        Expr::OptChain { span, base } => match base {
            OptChainBase::Member { obj, prop } => match prop {
                MemberProp::Ident(name) => match chain_path(*obj) {
                    Some((p, _)) => Some((dot(p, name@), true)),
                    None => None,
                },
                _ => None,
            },
            OptChainBase::Call => None,
        },
        Expr::Other => None,
    }
}

/// The resolved path of an expression: its chain path, unless that fails or
/// is the empty string, in which case resolution fails.
pub open spec fn resolve(e: Expr) -> Option<(Seq<char>, bool)> {
    match chain_path(e) {
        Some((p, opt)) => if p.len() == 0 {
            None
        } else {
            Some((p, opt))
        },
        None => None,
    }
}

/// The view of a resolved path.
pub open spec fn resolved_view(r: Option<(String, bool)>) -> Option<(Seq<char>, bool)> {
    match r {
        Some((p, opt)) => Some((p@, opt)),
        None => None,
    }
}

/// Whether some link of the expression's member chain is a computed access.
pub open spec fn chain_has_computed(e: Expr) -> bool
    decreases e,
{
    match e {
        Expr::Member { obj, prop } => prop == MemberProp::Computed || chain_has_computed(*obj),
        Expr::OptChain { span, base } => match base {
            OptChainBase::Member { obj, prop } => prop == MemberProp::Computed || chain_has_computed(
                *obj,
            ),
            OptChainBase::Call => false,
        },
        _ => false,
    }
}

/// `a + "." + b`
pub fn join_dot(a: &String, b: &String) -> (r: String)
    ensures
        r@ == dot(a@, b@),
{
    let mut r = a.clone();
    proof {
        reveal_strlit(".");
    }
    r.append(".");
    r.append(b.as_str());
    r
}

/// The dotted path of a meta-property.
pub fn meta_path_string(k: MetaPropKind) -> (r: String)
    ensures
        r@ == meta_path(k),
{
    match k {
        MetaPropKind::ImportMeta => {
            proof {
                reveal_strlit("import.meta");
            }
            String::from_str("import.meta")
        },
        MetaPropKind::NewTarget => {
            proof {
                reveal_strlit("new.target");
            }
            String::from_str("new.target")
        },
    }
}

/// The chain path of `expr`; see `chain_path`.
fn build_chain_path(expr: &Expr) -> (r: Option<(String, bool)>)
    ensures
        resolved_view(r) == chain_path(*expr),
    decreases expr,
{
    match expr {
        Expr::Ident(name) => Some((name.clone(), false)),
        Expr::MetaProp(k) => Some((meta_path_string(*k), false)),
        Expr::Member { obj, prop } => match prop {
            MemberProp::Ident(name) => match build_chain_path(obj) {
                Some((p, opt)) => Some((join_dot(&p, name), opt)),
                None => None,
            },
            _ => None,
        },
        Expr::OptChain { span: _, base } => match base {
            OptChainBase::Member { obj, prop } => match prop {
                MemberProp::Ident(name) => match build_chain_path(obj) {
                    Some((p, _)) => Some((join_dot(&p, name), true)),
                    None => None,
                },
                _ => None,
            },
            OptChainBase::Call => None,
        },
        Expr::Other => None,
    }
}

/// Resolves the dotted path of `expr`; see `resolve`.
pub fn build_expression_path(expr: &Expr) -> (r: Option<(String, bool)>)
    ensures
        resolved_view(r) == resolve(*expr),
        r matches Some((p, _)) ==> p@.len() > 0,
{
    match build_chain_path(expr) {
        Some((p, opt)) => if p.as_str().is_empty() {
            None
        } else {
            Some((p, opt))
        },
        None => None,
    }
}

} // verus!
