//! Static policy checker that flags optional-chaining and destructuring
//! accesses to configured protected dotted paths.

pub mod ast;
pub mod path;
pub mod laws;
pub mod transform;

pub use ast::{
    Diagnostic, DiagnosticKind, Expr, MemberProp, MetaPropKind, Node, ObjectPatProp, OptChainBase,
    Pat, PropName, Span, VarDeclarator,
};
pub use transform::{EnforceDirectAccessTransformer, PluginConfig, TransformVisitor};
