use enforce_direct_access::{
    Diagnostic, DiagnosticKind, EnforceDirectAccessTransformer, Expr, MemberProp, MetaPropKind,
    Node, ObjectPatProp, OptChainBase, Pat, PluginConfig, PropName, Span, VarDeclarator,
};

fn ident(name: &str) -> Expr {
    Expr::Ident(name.to_string())
}

fn member(obj: Expr, prop: &str) -> Expr {
    Expr::Member { obj: Box::new(obj), prop: MemberProp::Ident(prop.to_string()) }
}

fn computed(obj: Expr) -> Expr {
    Expr::Member { obj: Box::new(obj), prop: MemberProp::Computed }
}

fn opt(obj: Expr, prop: &str, span: Span) -> Expr {
    Expr::OptChain {
        span,
        base: OptChainBase::Member { obj: Box::new(obj), prop: MemberProp::Ident(prop.to_string()) },
    }
}

fn span(lo: u32, hi: u32) -> Span {
    Span { lo, hi }
}

fn checker(paths: &[&str]) -> EnforceDirectAccessTransformer {
    EnforceDirectAccessTransformer::new(PluginConfig {
        paths: paths.iter().map(|p| p.to_string()).collect(),
    })
}

fn diag(kind: DiagnosticKind, path: &str, s: Span) -> Diagnostic {
    Diagnostic { kind, path: path.to_string(), span: s }
}

fn shorthand(names: &[&str]) -> Pat {
    Pat::Object(names.iter().map(|n| ObjectPatProp::Assign(n.to_string())).collect())
}

fn declarator(s: Span, name: Pat, init: Expr) -> VarDeclarator {
    VarDeclarator { span: s, name, init: Some(init) }
}

fn run_expr(t: &mut EnforceDirectAccessTransformer, e: &Expr) -> Vec<Diagnostic> {
    t.visit_mut_expr(e);
    t.diagnostics().clone()
}

fn run_decl(t: &mut EnforceDirectAccessTransformer, d: &VarDeclarator) -> Vec<Diagnostic> {
    t.visit_mut_var_declarator(d);
    t.diagnostics().clone()
}

#[test]
fn validate_accepts_any_list() {
    assert_eq!(PluginConfig { paths: vec![] }.validate(), Ok(()));
    assert_eq!(PluginConfig { paths: vec!["process.env".to_string()] }.validate(), Ok(()));
}

#[test]
fn resolves_member_chain() {
    let t = checker(&["process.env"]);
    let e = member(member(ident("process"), "env"), "API_KEY");
    assert_eq!(t.build_expression_path(&e), Some(("process.env.API_KEY".to_string(), false)));
}

#[test]
fn resolves_optional_link_and_sets_flag() {
    let t = checker(&[]);
    let e = opt(ident("process"), "env", span(0, 12));
    assert_eq!(t.build_expression_path(&e), Some(("process.env".to_string(), true)));
}

#[test]
fn resolves_meta_properties() {
    let t = checker(&[]);
    let e = member(Expr::MetaProp(MetaPropKind::ImportMeta), "env");
    assert_eq!(t.build_expression_path(&e), Some(("import.meta.env".to_string(), false)));
    let n = Expr::MetaProp(MetaPropKind::NewTarget);
    assert_eq!(t.build_expression_path(&n), Some(("new.target".to_string(), false)));
}

#[test]
fn unsupported_links_fail_whole_chain() {
    let t = checker(&[]);
    assert_eq!(t.build_expression_path(&member(computed(ident("process")), "env")), None);
    assert_eq!(t.build_expression_path(&member(Expr::Other, "env")), None);
    let call = Expr::OptChain { span: span(0, 1), base: OptChainBase::Call };
    assert_eq!(t.build_expression_path(&member(call, "x")), None);
    let private = Expr::Member {
        obj: Box::new(ident("a")),
        prop: MemberProp::PrivateName("b".to_string()),
    };
    assert_eq!(t.build_expression_path(&private), None);
}

#[test]
fn resolution_is_repeatable() {
    let t = checker(&["process.env"]);
    let e = opt(member(ident("process"), "env"), "API_KEY", span(0, 20));
    assert_eq!(t.build_expression_path(&e), t.build_expression_path(&e));
}

#[test]
fn empty_policy_reports_nothing() {
    let mut t = checker(&[]);
    let nodes = vec![
        Node::Expr(opt(ident("process"), "env", span(0, 12))),
        Node::Expr(opt(member(ident("process"), "env"), "A", span(13, 30))),
        Node::VarDeclarator(declarator(span(31, 60), shorthand(&["env"]), ident("process"))),
    ];
    t.check_nodes(&nodes);
    assert!(t.diagnostics().is_empty());
}

#[test]
fn optional_chain_one_level_deeper_is_allowed() {
    let mut t = checker(&["process.env"]);
    let e = opt(member(member(ident("process"), "env"), "API_KEY"), "toLowerCase", span(0, 40));
    assert!(run_expr(&mut t, &e).is_empty());
}

#[test]
fn optional_chain_on_protected_object_is_reported() {
    let mut t = checker(&["process.env"]);
    let s = span(0, 20);
    let e = opt(member(ident("process"), "env"), "API_KEY", s);
    assert_eq!(run_expr(&mut t, &e), vec![diag(DiagnosticKind::OptionalChaining, "process.env", s)]);
}

#[test]
fn optional_chain_reaching_protected_path_is_reported() {
    let mut t = checker(&["process.env"]);
    let s = span(3, 15);
    let e = opt(ident("process"), "env", s);
    assert_eq!(run_expr(&mut t, &e), vec![diag(DiagnosticKind::OptionalChaining, "process.env", s)]);
}

#[test]
fn optional_chain_reports_first_configured_match() {
    let s = span(0, 4);
    let e = opt(ident("a"), "b", s);
    let mut t = checker(&["a", "a.b"]);
    assert_eq!(run_expr(&mut t, &e), vec![diag(DiagnosticKind::OptionalChaining, "a", s)]);
    let mut u = checker(&["a.b", "a"]);
    assert_eq!(run_expr(&mut u, &e), vec![diag(DiagnosticKind::OptionalChaining, "a.b", s)]);
}

#[test]
fn optional_call_is_not_checked() {
    let mut t = checker(&["process.env"]);
    let e = Expr::OptChain { span: span(0, 5), base: OptChainBase::Call };
    assert!(run_expr(&mut t, &e).is_empty());
}

#[test]
fn optional_computed_property_matches_object_only() {
    let s = span(0, 9);
    let e = Expr::OptChain {
        span: s,
        base: OptChainBase::Member { obj: Box::new(ident("process")), prop: MemberProp::Computed },
    };
    let mut t = checker(&["process.env"]);
    assert!(run_expr(&mut t, &e).is_empty());
    let mut u = checker(&["process"]);
    assert_eq!(run_expr(&mut u, &e), vec![diag(DiagnosticKind::OptionalChaining, "process", s)]);
}

#[test]
fn handle_optional_chain_returns_the_diagnostic() {
    let t = checker(&["import.meta.env"]);
    let s = span(1, 2);
    let e = opt(member(Expr::MetaProp(MetaPropKind::ImportMeta), "env"), "MODE", s);
    assert_eq!(
        t.handle_optional_chain_expr(&e, s),
        Some(diag(DiagnosticKind::OptionalChaining, "import.meta.env", s))
    );
}

#[test]
fn destructuring_protected_path_is_reported_once() {
    let mut t = checker(&["process.env"]);
    let s = span(0, 25);
    let d = declarator(s, shorthand(&["env"]), ident("process"));
    assert_eq!(run_decl(&mut t, &d), vec![diag(DiagnosticKind::Destructuring, "process.env", s)]);
}

#[test]
fn destructuring_one_level_deeper_is_allowed() {
    let mut t = checker(&["process.env"]);
    let d = declarator(span(0, 30), shorthand(&["API_KEY"]), member(ident("process"), "env"));
    assert!(run_decl(&mut t, &d).is_empty());
}

#[test]
fn destructuring_from_optional_protected_path() {
    let mut t = checker(&["process.env"]);
    let s = span(0, 35);
    let d = declarator(s, shorthand(&["API_KEY"]), opt(ident("process"), "env", span(20, 32)));
    assert_eq!(
        run_decl(&mut t, &d),
        vec![diag(DiagnosticKind::DestructuringWithOptional, "process.env", s)]
    );
}

#[test]
fn destructuring_through_optional_chain_skips_bindings() {
    let mut t = checker(&["a.b.c"]);
    let d = declarator(span(0, 10), shorthand(&["c"]), opt(ident("a"), "b", span(5, 9)));
    assert!(run_decl(&mut t, &d).is_empty());
}

#[test]
fn destructuring_reports_each_matching_binding() {
    let mut t = checker(&["process.env", "process.argv"]);
    let s = span(0, 40);
    let pat = Pat::Object(vec![
        ObjectPatProp::KeyValue(PropName::Ident("env".to_string())),
        ObjectPatProp::Assign("cwd".to_string()),
        ObjectPatProp::KeyValue(PropName::Other),
        ObjectPatProp::Rest,
        ObjectPatProp::Assign("argv".to_string()),
    ]);
    let d = declarator(s, pat, ident("process"));
    assert_eq!(
        run_decl(&mut t, &d),
        vec![
            diag(DiagnosticKind::Destructuring, "process.env", s),
            diag(DiagnosticKind::Destructuring, "process.argv", s),
        ]
    );
}

#[test]
fn declarator_without_object_pattern_or_init_is_skipped() {
    let mut t = checker(&["process.env"]);
    let plain = declarator(span(0, 5), Pat::Other, member(ident("process"), "env"));
    let no_init = VarDeclarator { span: span(6, 9), name: shorthand(&["env"]), init: None };
    assert!(run_decl(&mut t, &plain).is_empty());
    assert!(run_decl(&mut t, &no_init).is_empty());
}

#[test]
fn handle_destructuring_returns_the_diagnostics() {
    let t = checker(&["new.target.x"]);
    let s = span(2, 8);
    let found = t.handle_destructuring(
        &shorthand(&["x", "y"]),
        &Expr::MetaProp(MetaPropKind::NewTarget),
        s,
    );
    assert_eq!(found, vec![diag(DiagnosticKind::Destructuring, "new.target.x", s)]);
}

#[test]
fn computed_access_is_never_reported() {
    let mut t = checker(&["process.env"]);
    let e = opt(computed(ident("process")), "API_KEY", span(0, 20));
    assert!(run_expr(&mut t, &e).is_empty());
    let d = declarator(span(21, 40), shorthand(&["env"]), computed(ident("process")));
    assert!(run_decl(&mut t, &d).is_empty());
}

#[test]
fn repeated_paths_are_stored_once() {
    let mut t = checker(&["process.env", "process.env"]);
    let s = span(0, 10);
    assert_eq!(
        run_expr(&mut t, &opt(ident("process"), "env", s)),
        vec![diag(DiagnosticKind::OptionalChaining, "process.env", s)]
    );
}

#[test]
fn walker_reports_in_visiting_order() {
    let mut t = checker(&["process.env"]);
    let s1 = span(0, 10);
    let s2 = span(11, 30);
    let nodes = vec![
        Node::Expr(opt(ident("process"), "env", s1)),
        Node::Expr(ident("x")),
        Node::VarDeclarator(declarator(s2, shorthand(&["env"]), ident("process"))),
    ];
    t.check_nodes(&nodes);
    assert_eq!(
        t.diagnostics().clone(),
        vec![
            diag(DiagnosticKind::OptionalChaining, "process.env", s1),
            diag(DiagnosticKind::Destructuring, "process.env", s2),
        ]
    );
}

#[test]
fn second_run_repeats_first() {
    let nodes = vec![
        Node::Expr(opt(member(ident("process"), "env"), "A", span(0, 10))),
        Node::VarDeclarator(declarator(span(11, 30), shorthand(&["env"]), ident("process"))),
        Node::Expr(opt(ident("process"), "env", span(31, 40))),
    ];
    let mut t = checker(&["process.env"]);
    t.check_nodes(&nodes);
    let first = t.diagnostics().clone();
    t.check_nodes(&nodes);
    let all = t.diagnostics().clone();
    assert_eq!(first.len(), 3);
    assert_eq!(all[..3].to_vec(), first);
    assert_eq!(all[3..].to_vec(), first);
}

#[test]
fn only_an_empty_whole_path_fails() {
    let t = checker(&[]);
    assert_eq!(t.build_expression_path(&ident("")), None);
    assert_eq!(t.build_expression_path(&member(ident(""), "env")), Some((".env".to_string(), false)));
    assert_eq!(
        t.build_expression_path(&member(ident("process"), "")),
        Some(("process.".to_string(), false))
    );
    assert_eq!(
        t.build_expression_path(&opt(ident("process"), "", span(0, 9))),
        Some(("process.".to_string(), true))
    );
}

#[test]
fn empty_bare_identifier_is_never_reported() {
    let mut t = checker(&["", ".env"]);
    let e = opt(ident(""), "env", span(0, 5));
    assert!(run_expr(&mut t, &e).is_empty());
    let d = declarator(span(6, 20), shorthand(&["env"]), ident(""));
    assert!(run_decl(&mut t, &d).is_empty());
    let s = span(21, 30);
    let deeper = opt(member(ident(""), "env"), "x", s);
    assert_eq!(run_expr(&mut t, &deeper), vec![diag(DiagnosticKind::OptionalChaining, ".env", s)]);
}
