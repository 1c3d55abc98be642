//! The syntax-tree shapes the checker inspects, held as plain values.
use vstd::prelude::*;

verus! {

/// A source location, taken verbatim from the triggering node.
#[derive(Clone, Copy, Debug, PartialEq, Eq, Structural)]
pub struct Span {
    pub lo: u32,
    pub hi: u32,
}

/// The two meta-properties: `import.meta` and `new.target`.
#[derive(Clone, Copy, Debug, PartialEq, Eq, Structural)]
pub enum MetaPropKind {
    ImportMeta,
    NewTarget,
}

/// The property part of a member access.
#[derive(Clone, Debug, PartialEq, Eq)]
pub enum MemberProp {
    /// `obj.name`
    Ident(String),
    /// `obj[expr]`
    Computed,
    /// `obj.#name`
    PrivateName(String),
}

/// The base of an optional chain: `obj?.prop` or `callee?.(args)`.
#[derive(Debug)]
pub enum OptChainBase {
    Member { obj: Box<Expr>, prop: MemberProp },
    Call,
}

/// An expression, as far as its member-access chain goes. Every shape the
/// checker does not look into is `Other`.
#[derive(Debug)]
pub enum Expr {
    Ident(String),
    MetaProp(MetaPropKind),
    Member { obj: Box<Expr>, prop: MemberProp },
    OptChain { span: Span, base: OptChainBase },
    Other,
}

/// The key of a key/value entry of an object pattern.
#[derive(Clone, Debug, PartialEq, Eq)]
pub enum PropName {
    Ident(String),
    /// String, number, big-integer or computed keys.
    Other,
}

/// One entry of an object pattern.
#[derive(Clone, Debug, PartialEq, Eq)]
pub enum ObjectPatProp {
    /// `{ key: value }`
    KeyValue(PropName),
    /// `{ key }` or `{ key = default }`
    Assign(String),
    /// `{ ...rest }`
    Rest,
}

/// A binding pattern.
#[derive(Clone, Debug, PartialEq, Eq)]
pub enum Pat {
    Object(Vec<ObjectPatProp>),
    Other,
}

/// One declarator of a variable declaration: `name = init`.
#[derive(Debug)]
pub struct VarDeclarator {
    pub span: Span,
    pub name: Pat,
    pub init: Option<Expr>,
}

/// A node the tree walker stops at: an expression or a variable declarator.
#[derive(Debug)]
pub enum Node {
    Expr(Expr),
    VarDeclarator(VarDeclarator),
}

/// The three kinds of policy violation.
#[derive(Clone, Copy, Debug, PartialEq, Eq, Structural)]
pub enum DiagnosticKind {
    /// An optional chain at or right after a protected path.
    OptionalChaining,
    /// Destructuring from a protected path reached through optional chaining.
    DestructuringWithOptional,
    /// Destructuring that binds a protected path.
    Destructuring,
}

/// A reported violation: its kind, the protected path it names, and where.
#[derive(Clone, Debug, PartialEq, Eq)]
pub struct Diagnostic {
    pub kind: DiagnosticKind,
    pub path: String,
    pub span: Span,
}

/// A diagnostic as a mathematical value.
pub type DiagnosticView = (DiagnosticKind, Seq<char>, Span);

impl View for Diagnostic {
    type V = DiagnosticView;

    open spec fn view(&self) -> DiagnosticView {
        (self.kind, self.path@, self.span)
    }
}

/// The views of a sequence of diagnostics.
pub open spec fn diagnostic_views(s: Seq<Diagnostic>) -> Seq<DiagnosticView> {
    s.map_values(|d: Diagnostic| d@)
}

} // verus!
