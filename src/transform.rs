//! The policy store, the two detection rules and the tree walker.
use crate::ast::{
    diagnostic_views, Diagnostic, DiagnosticKind, DiagnosticView, Expr, MemberProp, Node,
    ObjectPatProp, OptChainBase, Pat, PropName, Span, VarDeclarator,
};
use crate::path::{build_expression_path, dot, join_dot, resolve, resolved_view};
use vstd::prelude::*;

verus! {

/// The plugin entry's visitor; it inspects nothing by itself.
pub struct TransformVisitor;

/// User configuration: the protected dotted paths, in the order given.
pub struct PluginConfig {
    pub paths: Vec<String>,
}

impl PluginConfig {
    /// Any list of paths is accepted, the empty one included.
    pub fn validate(&self) -> (r: Result<(), String>)
        ensures
            r is Ok,
    {
        Ok(())
    }
}

/// The views of a sequence of strings.
pub open spec fn string_views(s: Seq<String>) -> Seq<Seq<char>> {
    s.map_values(|x: String| x@)
}

/// The sequence with each value kept at its first occurrence only.
pub open spec fn dedup(s: Seq<Seq<char>>) -> Seq<Seq<char>>
    decreases s.len(),
{
    if s.len() == 0 {
        seq![]
    } else {
        let d = dedup(s.drop_last());
        if d.contains(s.last()) {
            d
        } else {
            d.push(s.last())
        }
    }
}

/// The protected path that an optional chain hits: the first of `paths`,
/// from index `i` on, that equals the object path or the full path.
pub open spec fn first_match(
    paths: Seq<Seq<char>>,
    object_path: Seq<char>,
    full_path: Option<Seq<char>>,
    i: int,
) -> Option<Seq<char>>
    decreases paths.len() - i,
{
    if i < 0 || i >= paths.len() {
        None
    } else if paths[i] == object_path || full_path == Some(paths[i]) {
        Some(paths[i])
    } else {
        first_match(paths, object_path, full_path, i + 1)
    }
}

/// The full path of an optional member access: the object path, a dot and
/// the property name, when the property is an identifier.
pub open spec fn full_path_of(object_path: Seq<char>, prop: MemberProp) -> Option<Seq<char>> {
    match prop {
        MemberProp::Ident(name) => Some(dot(object_path, name@)),
        _ => None,
    }
}

/// What the optional-chain rule reports for `expr` at `span`.
pub open spec fn optional_chain_diagnostic(
    paths: Seq<Seq<char>>,
    expr: Expr,
    span: Span,
) -> Option<DiagnosticView> {
    if paths.len() == 0 {
        None
    } else {
        match expr {
            Expr::OptChain { span: _, base: OptChainBase::Member { obj, prop } } => match resolve(
                *obj,
            ) {
                Some((object_path, _)) => match first_match(
                    paths,
                    object_path,
                    full_path_of(object_path, prop),
                    0,
                ) {
                    Some(p) => Some((DiagnosticKind::OptionalChaining, p, span)),
                    None => None,
                },
                None => None,
            },
            _ => None,
        }
    }
}

/// The property name an object-pattern entry binds, if the rule reads it.
pub open spec fn prop_key(p: ObjectPatProp) -> Option<Seq<char>> {
    match p {
        ObjectPatProp::KeyValue(PropName::Ident(name)) => Some(name@),
        ObjectPatProp::Assign(name) => Some(name@),
        _ => None,
    }
}

/// One diagnostic for each entry of `props` whose key, appended to
/// `init_path`, is a protected path; in the order of the entries.
pub open spec fn bypass_diagnostics(
    paths: Seq<Seq<char>>,
    init_path: Seq<char>,
    props: Seq<ObjectPatProp>,
    span: Span,
) -> Seq<DiagnosticView>
    decreases props.len(),
{
    if props.len() == 0 {
        seq![]
    } else {
        let rest = bypass_diagnostics(paths, init_path, props.drop_last(), span);
        match prop_key(props.last()) {
            Some(k) => if paths.contains(dot(init_path, k)) {
                rest.push((DiagnosticKind::Destructuring, dot(init_path, k), span))
            } else {
                rest
            },
            None => rest,
        }
    }
}

/// What the destructuring rule reports for `pat = init` at `span`.
pub open spec fn destructuring_diagnostics(
    paths: Seq<Seq<char>>,
    pat: Pat,
    init: Expr,
    span: Span,
) -> Seq<DiagnosticView> {
    if paths.len() == 0 {
        seq![]
    } else {
        match pat {
            Pat::Object(props) => match resolve(init) {
                Some((init_path, has_optional)) => if has_optional {
                    if paths.contains(init_path) {
                        seq![(DiagnosticKind::DestructuringWithOptional, init_path, span)]
                    } else {
                        seq![]
                    }
                } else {
                    bypass_diagnostics(paths, init_path, props@, span)
                },
                None => seq![],
            },
            Pat::Other => seq![],
        }
    }
}

/// What visiting one expression reports.
pub open spec fn expr_diagnostics(paths: Seq<Seq<char>>, e: Expr) -> Seq<DiagnosticView> {
    match e {
        Expr::OptChain { span, base: _ } => match optional_chain_diagnostic(paths, e, span) {
            Some(d) => seq![d],
            None => seq![],
        },
        _ => seq![],
    }
}

/// What visiting one variable declarator reports.
pub open spec fn declarator_diagnostics(
    paths: Seq<Seq<char>>,
    d: VarDeclarator,
) -> Seq<DiagnosticView> {
    match d.name {
        Pat::Object(_) => match d.init {
            Some(init) => destructuring_diagnostics(paths, d.name, init, d.span),
            None => seq![],
        },
        Pat::Other => seq![],
    }
}

/// What visiting one node reports.
pub open spec fn node_diagnostics(paths: Seq<Seq<char>>, n: Node) -> Seq<DiagnosticView> {
    match n {
        Node::Expr(e) => expr_diagnostics(paths, e),
        Node::VarDeclarator(d) => declarator_diagnostics(paths, d),
    }
}

/// What visiting the nodes in order reports.
pub open spec fn nodes_diagnostics(paths: Seq<Seq<char>>, nodes: Seq<Node>) -> Seq<
    DiagnosticView,
>
    decreases nodes.len(),
{
    if nodes.len() == 0 {
        seq![]
    } else {
        nodes_diagnostics(paths, nodes.drop_last()) + node_diagnostics(paths, nodes.last())
    }
}

/// Whether `v` holds a string equal to `p`.
fn vec_contains(v: &Vec<String>, p: &String) -> (r: bool)
    ensures
        r == string_views(v@).contains(p@),
{
    let mut i: usize = 0;
    while i < v.len()
        invariant
            i <= v@.len(),
            forall|j: int| 0 <= j < i ==> v@[j]@ != p@,
        decreases v@.len() - i,
    {
        if v[i] == *p {
            assert(string_views(v@)[i as int] == p@);
            return true;
        }
        i += 1;
    }
    proof {
        if string_views(v@).contains(p@) {
            let j = choose|j: int| 0 <= j < v@.len() && string_views(v@)[j] == p@;
            assert(v@[j]@ == p@);
        }
    }
    false
}

proof fn lemma_string_views_push(s: Seq<String>, x: String)
    ensures
        string_views(s.push(x)) == string_views(s).push(x@),
{
    assert(string_views(s.push(x)) =~= string_views(s).push(x@));
}

proof fn lemma_diagnostic_views_push(s: Seq<Diagnostic>, d: Diagnostic)
    ensures
        diagnostic_views(s.push(d)) == diagnostic_views(s).push(d@),
{
    assert(diagnostic_views(s.push(d)) =~= diagnostic_views(s).push(d@));
}

/// The checker: a set of protected paths, and the diagnostics reported so far.
pub struct EnforceDirectAccessTransformer {
    config_paths: Vec<String>,
    diagnostics: Vec<Diagnostic>,
}

impl EnforceDirectAccessTransformer {
    /// The protected paths, each once, in the order first configured.
    pub closed spec fn paths(&self) -> Seq<Seq<char>> {
        string_views(self.config_paths@)
    }

    /// The diagnostics reported so far, in order.
    pub closed spec fn reported(&self) -> Seq<DiagnosticView> {
        diagnostic_views(self.diagnostics@)
    }

    /// No protected path is held twice.
    pub open spec fn wf(&self) -> bool {
        self.paths().no_duplicates()
    }

    /// Builds the policy store from the configured paths, dropping repeats.
    pub fn new(config: PluginConfig) -> (r: Self)
        ensures
            r.paths() == dedup(string_views(config.paths@)),
            r.reported() == Seq::<DiagnosticView>::empty(),
            r.wf(),
    {
        let mut out: Vec<String> = Vec::new();
        let mut i: usize = 0;
        while i < config.paths.len()
            invariant
                i <= config.paths@.len(),
                string_views(out@) == dedup(string_views(config.paths@).subrange(0, i as int)),
            decreases config.paths@.len() - i,
        {
            let ghost s = string_views(config.paths@).subrange(0, i + 1);
            assert(s.drop_last() =~= string_views(config.paths@).subrange(0, i as int));
            assert(s.last() == config.paths@[i as int]@);
            if !vec_contains(&out, &config.paths[i]) {
                proof {
                    lemma_string_views_push(out@, config.paths@[i as int]);
                }
                out.push(config.paths[i].clone());
            }
            i += 1;
        }
        assert(string_views(config.paths@).subrange(0, config.paths@.len() as int)
            =~= string_views(config.paths@));
        let r = EnforceDirectAccessTransformer { config_paths: out, diagnostics: Vec::new() };
        proof {
            lemma_dedup(string_views(config.paths@));
            assert(r.reported() =~= Seq::<DiagnosticView>::empty());
        }
        r
    }

    /// Whether `p` is a protected path.
    fn contains_path(&self, p: &String) -> (r: bool)
        ensures
            r == self.paths().contains(p@),
    {
        vec_contains(&self.config_paths, p)
    }

    /// Resolves the dotted path of `expr`, and whether it crossed an
    /// optional chain.
    pub fn build_expression_path(&self, expr: &Expr) -> (r: Option<(String, bool)>)
        ensures
            resolved_view(r) == resolve(*expr),
            r matches Some((p, _)) ==> p@.len() > 0,
    {
        build_expression_path(expr)
    }

    /// The optional-chain rule on the optional chain `expr` at `span`.
    pub fn handle_optional_chain_expr(&self, expr: &Expr, span: Span) -> (r: Option<Diagnostic>)
        ensures
            r matches Some(d) ==> optional_chain_diagnostic(self.paths(), *expr, span) == Some(
                d@,
            ),
            r is None ==> optional_chain_diagnostic(self.paths(), *expr, span) is None,
    {
        if self.config_paths.len() == 0 {
            return None;
        }
        if let Expr::OptChain { span: _, base: OptChainBase::Member { obj, prop } } = expr {
            if let Some((object_path, _)) = build_expression_path(obj) {
                let full_path: Option<String> = match prop {
                    MemberProp::Ident(name) => Some(join_dot(&object_path, name)),
                    _ => None,
                };
                let ghost fp = full_path_of(object_path@, *prop);
                assert(match full_path {
                    Some(f) => fp == Some(f@),
                    None => fp is None,
                });
                let ghost outcome = match first_match(self.paths(), object_path@, fp, 0) {
                    Some(p) => Some((DiagnosticKind::OptionalChaining, p, span)),
                    None => None,
                };
                assert(optional_chain_diagnostic(self.paths(), *expr, span) == outcome);
                let n = self.config_paths.len();
                let mut i: usize = 0;
                while i < n
                    invariant
                        i <= n,
                        optional_chain_diagnostic(self.paths(), *expr, span) == outcome,
                        outcome == match first_match(self.paths(), object_path@, fp, 0) {
                            Some(p) => Some((DiagnosticKind::OptionalChaining, p, span)),
                            None => None,
                        },
                        n == self.paths().len(),
                        first_match(self.paths(), object_path@, fp, 0) == first_match(
                            self.paths(),
                            object_path@,
                            fp,
                            i as int,
                        ),
                        match full_path {
                            Some(f) => fp == Some(f@),
                            None => fp is None,
                        },
                    decreases n - i,
                {
                    let config_path = &self.config_paths[i];
                    assert(self.paths()[i as int] == config_path@);
                    if object_path == *config_path {
                        assert(first_match(self.paths(), object_path@, fp, i as int) == Some(
                            config_path@,
                        ));
                        return Some(
                            Diagnostic {
                                kind: DiagnosticKind::OptionalChaining,
                                path: config_path.clone(),
                                span,
                            },
                        );
                    } else if let Some(full) = &full_path {
                        if *full == *config_path {
                            assert(first_match(self.paths(), object_path@, fp, i as int) == Some(
                                config_path@,
                            ));
                            return Some(
                                Diagnostic {
                                    kind: DiagnosticKind::OptionalChaining,
                                    path: config_path.clone(),
                                    span,
                                },
                            );
                        }
                    }
                    i += 1;
                }
            }
        }
        None
    }

    /// The destructuring rule on the declarator `pat = init` at `span`.
    pub fn handle_destructuring(&self, pat: &Pat, init: &Expr, span: Span) -> (r: Vec<Diagnostic>)
        ensures
            diagnostic_views(r@) == destructuring_diagnostics(self.paths(), *pat, *init, span),
    {
        let mut out: Vec<Diagnostic> = Vec::new();
        assert(diagnostic_views(out@) =~= Seq::<DiagnosticView>::empty());
        if self.config_paths.len() == 0 {
            return out;
        }
        if let Pat::Object(props) = pat {
            if let Some((init_path, has_optional)) = build_expression_path(init) {
                if has_optional && self.contains_path(&init_path) {
                    let d = Diagnostic {
                        kind: DiagnosticKind::DestructuringWithOptional,
                        path: init_path,
                        span,
                    };
                    proof {
                        lemma_diagnostic_views_push(out@, d);
                    }
                    out.push(d);
                    assert(diagnostic_views(out@) =~= seq![d@]);
                    return out;
                }
                if !has_optional {
                    let ghost paths = self.paths();
                    let mut i: usize = 0;
                    while i < props.len()
                        invariant
                            i <= props@.len(),
                            paths == self.paths(),
                            destructuring_diagnostics(paths, *pat, *init, span)
                                == bypass_diagnostics(paths, init_path@, props@, span),
                            diagnostic_views(out@) == bypass_diagnostics(
                                paths,
                                init_path@,
                                props@.subrange(0, i as int),
                                span,
                            ),
                        decreases props@.len() - i,
                    {
                        let ghost sub = props@.subrange(0, i + 1);
                        assert(sub.drop_last() =~= props@.subrange(0, i as int));
                        assert(sub.last() == props@[i as int]);
                        let key: Option<&String> = match &props[i] {
                            ObjectPatProp::KeyValue(PropName::Ident(name)) => Some(name),
                            ObjectPatProp::Assign(name) => Some(name),
                            _ => None,
                        };
                        assert(match key {
                            Some(k) => prop_key(props@[i as int]) == Some(k@),
                            None => prop_key(props@[i as int]) is None,
                        });
                        if let Some(name) = key {
                            let full_path = join_dot(&init_path, name);
                            if self.contains_path(&full_path) {
                                let d = Diagnostic {
                                    kind: DiagnosticKind::Destructuring,
                                    path: full_path,
                                    span,
                                };
                                proof {
                                    lemma_diagnostic_views_push(out@, d);
                                }
                                out.push(d);
                            }
                        }
                        i += 1;
                    }
                    assert(props@.subrange(0, props@.len() as int) =~= props@);
                }
            }
        }
        out
    }

    /// Appends one diagnostic to those reported.
    fn report(&mut self, d: Diagnostic)
        ensures
            final(self).paths() == old(self).paths(),
            final(self).reported() == old(self).reported().push(d@),
    {
        proof {
            lemma_diagnostic_views_push(self.diagnostics@, d);
        }
        self.diagnostics.push(d);
    }

    /// Appends the diagnostics of `found`, in order, to those reported.
    fn report_all(&mut self, found: Vec<Diagnostic>)
        ensures
            final(self).paths() == old(self).paths(),
            final(self).reported() == old(self).reported() + diagnostic_views(found@),
    {
        let mut found = found;
        let ghost before = self.diagnostics@;
        let ghost added = found@;
        self.diagnostics.append(&mut found);
        assert(diagnostic_views(before + added) =~= diagnostic_views(before) + diagnostic_views(
            added,
        ));
    }

    /// Visits one expression: applies the optional-chain rule to an
    /// optional chain.
    pub fn visit_mut_expr(&mut self, expr: &Expr)
        ensures
            final(self).paths() == old(self).paths(),
            final(self).reported() == old(self).reported() + expr_diagnostics(
                old(self).paths(),
                *expr,
            ),
    {
        if let Expr::OptChain { span, base: _ } = expr {
            let span = *span;
            if let Some(d) = self.handle_optional_chain_expr(expr, span) {
                self.report(d);
                assert(old(self).reported().push(d@) =~= old(self).reported() + seq![d@]);
                return;
            }
        }
        assert(self.reported() =~= self.reported() + Seq::<DiagnosticView>::empty());
    }

    /// Visits one variable declarator: applies the destructuring rule to an
    /// object pattern with an initializer.
    pub fn visit_mut_var_declarator(&mut self, declarator: &VarDeclarator)
        ensures
            final(self).paths() == old(self).paths(),
            final(self).reported() == old(self).reported() + declarator_diagnostics(
                old(self).paths(),
                *declarator,
            ),
    {
        if let Pat::Object(_) = &declarator.name {
            if let Some(init) = &declarator.init {
                let found = self.handle_destructuring(&declarator.name, init, declarator.span);
                self.report_all(found);
                return;
            }
        }
        assert(self.reported() =~= self.reported() + Seq::<DiagnosticView>::empty());
    }

    /// Visits the nodes of a tree in the order a pre-order walk meets them.
    pub fn check_nodes(&mut self, nodes: &Vec<Node>)
        ensures
            final(self).paths() == old(self).paths(),
            final(self).reported() == old(self).reported() + nodes_diagnostics(
                old(self).paths(),
                nodes@,
            ),
    {
        let mut i: usize = 0;
        assert(old(self).reported() =~= old(self).reported() + nodes_diagnostics(
            old(self).paths(),
            nodes@.subrange(0, 0),
        ));
        while i < nodes.len()
            invariant
                i <= nodes@.len(),
                self.paths() == old(self).paths(),
                self.reported() == old(self).reported() + nodes_diagnostics(
                    old(self).paths(),
                    nodes@.subrange(0, i as int),
                ),
            decreases nodes@.len() - i,
        {
            let ghost sub = nodes@.subrange(0, i + 1);
            assert(sub.drop_last() =~= nodes@.subrange(0, i as int));
            assert(sub.last() == nodes@[i as int]);
            match &nodes[i] {
                Node::Expr(e) => self.visit_mut_expr(e),
                Node::VarDeclarator(d) => self.visit_mut_var_declarator(d),
            }
            assert(self.reported() =~= old(self).reported() + nodes_diagnostics(
                old(self).paths(),
                sub,
            ));
            i += 1;
        }
        assert(nodes@.subrange(0, nodes@.len() as int) =~= nodes@);
    }

    /// The diagnostics reported so far.
    pub fn diagnostics(&self) -> (r: &Vec<Diagnostic>)
        ensures
            diagnostic_views(r@) == self.reported(),
    {
        &self.diagnostics
    }
}

/// Every value of a deduplicated sequence occurs once, and it holds the
/// same values as the sequence it came from.
pub proof fn lemma_dedup(s: Seq<Seq<char>>)
    ensures
        dedup(s).no_duplicates(),
        forall|x: Seq<char>| dedup(s).contains(x) <==> s.contains(x),
    decreases s.len(),
{
    if s.len() > 0 {
        let t = s.drop_last();
        lemma_dedup(t);
        assert forall|x: Seq<char>| s.contains(x) <==> (t.contains(x) || x == s.last()) by {
            if s.contains(x) {
                let j = choose|j: int| 0 <= j < s.len() && s[j] == x;
                if j < s.len() - 1 {
                    assert(t[j] == x);
                }
            }
            if t.contains(x) {
                let j = choose|j: int| 0 <= j < t.len() && t[j] == x;
                assert(s[j] == x);
            }
            if x == s.last() {
                assert(s[s.len() - 1] == x);
            }
        }
        let d = dedup(t);
        if !d.contains(s.last()) {
            assert forall|x: Seq<char>| d.push(s.last()).contains(x) <==> (d.contains(x) || x
                == s.last()) by {
                if d.push(s.last()).contains(x) {
                    let j = choose|j: int| 0 <= j < d.len() + 1 && d.push(s.last())[j] == x;
                    if j < d.len() {
                        assert(d[j] == x);
                    }
                }
                if d.contains(x) {
                    let j = choose|j: int| 0 <= j < d.len() && d[j] == x;
                    assert(d.push(s.last())[j] == x);
                }
                if x == s.last() {
                    assert(d.push(s.last())[d.len() as int] == x);
                }
            }
        }
    }
}

} // verus!
