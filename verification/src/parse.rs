use vstd::prelude::*;
use crate::tree::{BinaryOp, Literal, Node, NodeV};

verus! {

// The expression grammar is syn's, the Rust expression parser: it turns
// source text into a precedence- and associativity-aware tree, which is
// converted below, shape for shape, into the library's own `Node` tree.
// Everything this library decides about a parsed expression it decides on
// `Node` values, in verified code.

#[verifier::external_type_specification]
#[verifier::external_body]
pub struct ExSynExpr(syn::Expr);

#[verifier::external_type_specification]
#[verifier::external_body]
pub struct ExSynBinOp(syn::BinOp);

#[verifier::external_type_specification]
#[verifier::external_body]
pub struct ExSynLit(syn::Lit);

/// The result of handing `s` to syn's expression parser and converting: the
/// tree's shape on success, the formatted parser diagnostic on failure. Both
/// depend on the text alone.
pub uninterp spec fn parse_of(s: Seq<char>) -> Result<NodeV, Seq<char>>;

/// Relies on `syn::BinOp`'s variants: each supported operator is mapped to
/// its own kind, every other operator to `Unsupported`.
#[verifier::external_body]
pub(crate) fn op_of(op: &syn::BinOp) -> BinaryOp {
    match op {
        syn::BinOp::Add(_) => BinaryOp::Add,
        syn::BinOp::Sub(_) => BinaryOp::Sub,
        syn::BinOp::Mul(_) => BinaryOp::Mul,
        syn::BinOp::Div(_) => BinaryOp::Div,
        syn::BinOp::Shl(_) => BinaryOp::Shl,
        syn::BinOp::Shr(_) => BinaryOp::Shr,
        syn::BinOp::BitAnd(_) => BinaryOp::BitAnd,
        syn::BinOp::BitOr(_) => BinaryOp::BitOr,
        syn::BinOp::BitXor(_) => BinaryOp::BitXor,
        _ => BinaryOp::Unsupported,
    }
}

/// Relies on `syn::Lit`'s variants and on `LitInt::base10_digits`,
/// `LitFloat::base10_digits` and their `suffix` accessors: the decimal digit
/// text and the type suffix of a numeric token, moved into the library's
/// literal node.
#[verifier::external_body]
pub(crate) fn lit_of(lit: &syn::Lit) -> Literal {
    match lit {
        syn::Lit::Int(i) => Literal::Int {
            digits: i.base10_digits().to_string(),
            suffix: i.suffix().to_string(),
        },
        syn::Lit::Float(f) => Literal::Float {
            digits: f.base10_digits().to_string(),
            suffix: f.suffix().to_string(),
        },
        _ => Literal::Other,
    }
}

/// Relies on `syn::Expr`'s variants: literal, binary, unary and parenthesized
/// nodes are converted one arm each, every other node shape to `Other`.
#[verifier::external_body]
pub(crate) fn node_of_expr(e: &syn::Expr) -> Node {
    match e {
        syn::Expr::Lit(l) => Node::Lit(lit_of(&l.lit)),
        syn::Expr::Binary(b) => Node::Binary(
            op_of(&b.op),
            Box::new(node_of_expr(&b.left)),
            Box::new(node_of_expr(&b.right)),
        ),
        syn::Expr::Unary(u) => Node::Unary(Box::new(node_of_expr(&u.expr))),
        syn::Expr::Paren(p) => Node::Paren(Box::new(node_of_expr(&p.expr))),
        _ => Node::Other,
    }
}

/// Relies on `syn::parse_str::<syn::Expr>`: it parses the text into an
/// expression tree honoring standard operator precedence and associativity,
/// or returns a diagnostic error; parsing is deterministic in the text, so
/// the converted tree and the formatted diagnostic are the function
/// `parse_of` of the text alone.
#[verifier::external_body]
pub(crate) fn parse_text(s: &str) -> (r: Result<Node, String>)
    ensures
        (r matches Ok(n) ==> parse_of(s@) == Ok::<NodeV, Seq<char>>(n@)),
        (r matches Err(m) ==> parse_of(s@) == Err::<NodeV, Seq<char>>(m@)),
{
    match syn::parse_str::<syn::Expr>(s) {
        Ok(e) => Ok(node_of_expr(&e)),
        Err(e) => Err(format!("{:#?}", e)),
    }
}

} // verus!
