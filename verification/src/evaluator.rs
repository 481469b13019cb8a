use vstd::prelude::*;
use crate::num::{
    add_bits, add_f, bits_of_i64, dec_of, div_bits, div_f, float_of_i64, is_dec_token, mul_bits,
    mul_f, parse_dec, sub_bits, sub_f, trunc_bits, trunc_f,
};
use crate::tree::{BinaryOp, LitV, Literal, Node, NodeV};

verus! {

// The evaluation engine: pure structural recursion over the expression tree.
// Arithmetic operators act directly on double-precision values; bitwise and
// shift operators act on the operands truncated to signed 64-bit integers,
// and their integer result is converted back to a double-precision value.
// A single "no value" signal (`None`) propagates silently through all
// recursive layers for every construct outside the supported subset.

/// The shift amount used by `<<` and `>>`: the truncated right operand,
/// taken modulo the 64-bit width.
pub open spec fn shift_amt(b: i64) -> u32 {
    (b & 63) as u32
}

pub open spec fn is_bitwise(op: BinaryOp) -> bool {
    op == BinaryOp::Shl || op == BinaryOp::Shr || op == BinaryOp::BitAnd || op == BinaryOp::BitOr
        || op == BinaryOp::BitXor
}

/// The signed 64-bit integer operation behind a bitwise or shift operator.
pub open spec fn spec_int_op(op: BinaryOp, x: i64, y: i64) -> i64 {
    match op {
        BinaryOp::Shl => x << shift_amt(y),
        BinaryOp::Shr => x >> shift_amt(y),
        BinaryOp::BitAnd => x & y,
        BinaryOp::BitOr => x | y,
        BinaryOp::BitXor => x ^ y,
        _ => 0,
    }
}

/// What one application of a binary operator returns: a double-precision
/// result for the nine supported operators, no value for any other.
pub open spec fn spec_apply(op: BinaryOp, a: u64, b: u64) -> Option<u64> {
    match op {
        BinaryOp::Add => Some(add_bits(a, b)),
        BinaryOp::Sub => Some(sub_bits(a, b)),
        BinaryOp::Mul => Some(mul_bits(a, b)),
        BinaryOp::Div => Some(div_bits(a, b)),
        BinaryOp::Shl | BinaryOp::Shr | BinaryOp::BitAnd | BinaryOp::BitOr | BinaryOp::BitXor =>
            Some(bits_of_i64(spec_int_op(op, trunc_bits(a), trunc_bits(b)))),
        BinaryOp::Unsupported => None,
    }
}

/// What a literal node evaluates to: the decimal value of an unsuffixed
/// numeric token; no value for a suffixed token, a non-numeric literal kind,
/// or digit text that does not parse.
pub open spec fn spec_lit(l: LitV) -> Option<u64> {
    match l {
        LitV::Int { digits, suffix } => if suffix.len() == 0 {
            dec_of(digits)
        } else {
            None
        },
        LitV::Float { digits, suffix } => if suffix.len() == 0 {
            dec_of(digits)
        } else {
            None
        },
        LitV::Other => None,
    }
}

/// A literal inside the supported subset: an unsuffixed numeric token whose
/// digit text is a plain decimal number.
pub open spec fn supported_lit(l: LitV) -> bool {
    match l {
        LitV::Int { digits, suffix } => suffix.len() == 0 && is_dec_token(digits),
        LitV::Float { digits, suffix } => suffix.len() == 0 && is_dec_token(digits),
        LitV::Other => false,
    }
}

/// What a whole expression tree evaluates to.
pub open spec fn spec_eval(t: NodeV) -> Option<u64>
    decreases t,
{
    match t {
        NodeV::Lit(l) => spec_lit(l),
        NodeV::Binary(op, l, r) => match (spec_eval(*l), spec_eval(*r)) {
            (Some(a), Some(b)) => spec_apply(op, a, b),
            _ => None,
        },
        NodeV::Unary(_) => None,
        NodeV::Paren(p) => spec_eval(*p),
        NodeV::Other => None,
    }
}

/// A tree built solely from supported literals, parentheses and the nine
/// supported operators.
pub open spec fn supported(t: NodeV) -> bool
    decreases t,
{
    match t {
        NodeV::Lit(l) => supported_lit(l),
        NodeV::Binary(op, l, r) => op != BinaryOp::Unsupported && supported(*l) && supported(*r),
        NodeV::Unary(_) => false,
        NodeV::Paren(p) => supported(*p),
        NodeV::Other => false,
    }
}

/// Applies one binary operator to two evaluated operands.
pub fn apply_op(op: BinaryOp, a: u64, b: u64) -> (r: Option<u64>)
    ensures
        r == spec_apply(op, a, b),
        op != BinaryOp::Unsupported ==> r is Some,
{
    match op {
        BinaryOp::Add => Some(add_f(a, b)),
        BinaryOp::Sub => Some(sub_f(a, b)),
        BinaryOp::Mul => Some(mul_f(a, b)),
        BinaryOp::Div => Some(div_f(a, b)),
        BinaryOp::Shl => {
            let x = trunc_f(a);
            let y = trunc_f(b);
            assert(0 <= (y & 63) && (y & 63) < 64) by (bit_vector);
            Some(float_of_i64(x << ((y & 63) as u32)))
        },
        BinaryOp::Shr => {
            let x = trunc_f(a);
            let y = trunc_f(b);
            assert(0 <= (y & 63) && (y & 63) < 64) by (bit_vector);
            Some(float_of_i64(x >> ((y & 63) as u32)))
        },
        BinaryOp::BitAnd => Some(float_of_i64(trunc_f(a) & trunc_f(b))),
        BinaryOp::BitOr => Some(float_of_i64(trunc_f(a) | trunc_f(b))),
        BinaryOp::BitXor => Some(float_of_i64(trunc_f(a) ^ trunc_f(b))),
        BinaryOp::Unsupported => None,
    }
}

/// The literal evaluator: converts a literal node to a numeric value,
/// enforcing the no-suffix rule; a parse failure of the digit text is no
/// value, never a hard error.
pub fn eval_literal(lit: &Literal) -> (r: Option<u64>)
    ensures
        r == spec_lit(lit@),
        supported_lit(lit@) ==> r is Some,
{
    match lit {
        Literal::Int { digits, suffix } => if suffix.as_str().is_empty() {
            parse_dec(digits.as_str())
        } else {
            None
        },
        Literal::Float { digits, suffix } => if suffix.as_str().is_empty() {
            parse_dec(digits.as_str())
        } else {
            None
        },
        Literal::Other => None,
    }
}

/// The unary evaluator: unary forms are an intentional non-goal, so every
/// operand yields no value.
pub fn eval_unary(_operand: &Node) -> (r: Option<u64>)
    ensures
        r == None::<u64>,
{
    None
}

/// The expression walker: dispatches on node shape and recurses.
pub fn eval_node(n: &Node) -> (r: Option<u64>)
    ensures
        r == spec_eval(n@),
        supported(n@) ==> r is Some,
    decreases *n, 1int,
{
    match n {
        Node::Lit(lit) => eval_literal(lit),
        Node::Binary(_, _, _) => eval_binary(n),
        Node::Unary(u) => eval_unary(&**u),
        Node::Paren(p) => eval_node(&**p),
        Node::Other => None,
    }
}

/// The binary evaluator: evaluates the left operand, short-circuits on "no
/// value" without touching the right one, then evaluates the right operand
/// and applies the operator.
pub fn eval_binary(n: &Node) -> (r: Option<u64>)
    requires
        *n matches Node::Binary(_, _, _),
    ensures
        r == spec_eval(n@),
        supported(n@) ==> r is Some,
    decreases *n, 0int,
{
    match n {
        Node::Binary(op, left, right) => {
            let a = match eval_node(&**left) {
                Some(a) => a,
                None => {
                    return None;
                },
            };
            let b = match eval_node(&**right) {
                Some(b) => b,
                None => {
                    return None;
                },
            };
            apply_op(*op, a, b)
        },
        _ => vstd::pervasive::unreached(),
    }
}

/// Bitwise and shift operators always operate on 64-bit-integer-truncated
/// operands: each operand's fractional part is discarded by the truncation
/// before the integer operation, and the integer result is converted back to
/// a double-precision value.
pub proof fn lemma_bitwise_on_truncated(op: BinaryOp, a: u64, b: u64)
    requires
        is_bitwise(op),
    ensures
        spec_apply(op, a, b) == Some(bits_of_i64(spec_int_op(op, trunc_bits(a), trunc_bits(b)))),
{
}

/// Applying the division operator never yields a failure: division by zero
/// still produces a double-precision bit pattern (an infinity or a NaN).
pub proof fn lemma_division_never_fails(a: u64, b: u64)
    ensures
        spec_apply(BinaryOp::Div, a, b) == Some(div_bits(a, b)),
{
}

/// The tree holds a type-suffixed literal somewhere.
pub open spec fn has_suffixed_lit(t: NodeV) -> bool
    decreases t,
{
    match t {
        NodeV::Lit(l) => match l {
            LitV::Int { suffix, .. } => suffix.len() > 0,
            LitV::Float { suffix, .. } => suffix.len() > 0,
            LitV::Other => false,
        },
        NodeV::Binary(_, l, r) => has_suffixed_lit(*l) || has_suffixed_lit(*r),
        NodeV::Unary(u) => has_suffixed_lit(*u),
        NodeV::Paren(p) => has_suffixed_lit(*p),
        NodeV::Other => false,
    }
}

/// The tree holds a unary operator somewhere.
pub open spec fn has_unary(t: NodeV) -> bool
    decreases t,
{
    match t {
        NodeV::Lit(_) => false,
        NodeV::Binary(_, l, r) => has_unary(*l) || has_unary(*r),
        NodeV::Unary(_) => true,
        NodeV::Paren(p) => has_unary(*p),
        NodeV::Other => false,
    }
}

/// A literal with a type suffix causes rejection regardless of its position
/// in the tree: the whole tree evaluates to no value.
pub proof fn lemma_suffixed_lit_rejected(t: NodeV)
    requires
        has_suffixed_lit(t),
    ensures
        spec_eval(t) == None::<u64>,
    decreases t,
{
    match t {
        NodeV::Binary(_, l, r) => {
            if has_suffixed_lit(*l) {
                lemma_suffixed_lit_rejected(*l);
            } else {
                lemma_suffixed_lit_rejected(*r);
            }
        },
        NodeV::Paren(p) => {
            lemma_suffixed_lit_rejected(*p);
        },
        _ => {},
    }
}

/// A unary operator causes rejection regardless of its position in the tree:
/// the whole tree evaluates to no value.
pub proof fn lemma_unary_rejected(t: NodeV)
    requires
        has_unary(t),
    ensures
        spec_eval(t) == None::<u64>,
    decreases t,
{
    match t {
        NodeV::Binary(_, l, r) => {
            if has_unary(*l) {
                lemma_unary_rejected(*l);
            } else {
                lemma_unary_rejected(*r);
            }
        },
        NodeV::Paren(p) => {
            lemma_unary_rejected(*p);
        },
        _ => {},
    }
}

} // verus!


