use vstd::prelude::*;

verus! {

/// A binary operator of the supported set, or a marker for any other
/// operator the parser recognises (comparison, logical, assignment, ...),
/// which evaluation rejects.
#[derive(Clone, Copy, Debug, PartialEq, Eq, Structural)]
pub enum BinaryOp {
    Add,
    Sub,
    Mul,
    Div,
    Shl,
    Shr,
    BitAnd,
    BitOr,
    BitXor,
    Unsupported,
}

/// A literal tree node: a numeric token's decimal digit text together with
/// its type suffix (empty when the token carries none), or a marker for any
/// non-numeric literal kind (string, boolean, character, ...).
pub enum Literal {
    Int { digits: String, suffix: String },
    Float { digits: String, suffix: String },
    Other,
}

/// An expression tree node, as handed over by the parser.
pub enum Node {
    Lit(Literal),
    Binary(BinaryOp, Box<Node>, Box<Node>),
    Unary(Box<Node>),
    Paren(Box<Node>),
    Other,
}

/// The mathematical shape of a literal node: its digit and suffix texts as
/// character sequences.
pub enum LitV {
    Int { digits: Seq<char>, suffix: Seq<char> },
    Float { digits: Seq<char>, suffix: Seq<char> },
    Other,
}

/// The mathematical shape of an expression tree.
pub enum NodeV {
    Lit(LitV),
    Binary(BinaryOp, Box<NodeV>, Box<NodeV>),
    Unary(Box<NodeV>),
    Paren(Box<NodeV>),
    Other,
}

pub open spec fn lit_view(l: Literal) -> LitV {
    match l {
        Literal::Int { digits, suffix } => LitV::Int { digits: digits@, suffix: suffix@ },
        Literal::Float { digits, suffix } => LitV::Float { digits: digits@, suffix: suffix@ },
        Literal::Other => LitV::Other,
    }
}

pub open spec fn node_view(n: Node) -> NodeV
    decreases n,
{
    match n {
        Node::Lit(l) => NodeV::Lit(lit_view(l)),
        Node::Binary(op, l, r) => NodeV::Binary(op, Box::new(node_view(*l)), Box::new(node_view(*r))),
        Node::Unary(u) => NodeV::Unary(Box::new(node_view(*u))),
        Node::Paren(p) => NodeV::Paren(Box::new(node_view(*p))),
        Node::Other => NodeV::Other,
    }
}

impl View for Literal {
    type V = LitV;

    open spec fn view(&self) -> LitV {
        lit_view(*self)
    }
}

impl View for Node {
    type V = NodeV;

    open spec fn view(&self) -> NodeV {
        node_view(*self)
    }
}

} // verus!
