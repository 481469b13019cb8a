//! Evaluates a textual arithmetic expression to a double-precision result.
//!
//! The supported subset is: unsuffixed decimal integer and floating-point
//! literals, the binary operators `+ - * / & | ^ << >>`, arbitrarily nested
//! parentheses, and insignificant whitespace. Anything else the parser
//! recognises — unary operators, identifiers, calls, other literal kinds,
//! other operators — is rejected with a descriptive failure.

pub mod error;
pub mod evaluator;
pub mod num;
pub mod parse;
pub mod tree;

use vstd::prelude::*;
use crate::error::ParseError;
use crate::evaluator::{eval_node, spec_eval, supported};
use crate::parse::{parse_of, parse_text};

verus! {

/// A computed numeric value: the bit pattern of an IEEE 754 double-precision
/// number.
#[derive(Clone, Copy, Debug, PartialEq, Eq, Structural)]
pub struct Num {
    pub bits: u64,
}

/// What evaluating a text comes to: a numeric value, a rejected construct,
/// or a parse failure with its diagnostic.
pub enum Outcome {
    Val(u64),
    Unsupported,
    Syntax(Seq<char>),
}

/// The outcome of evaluating the text `s`: parse it, then evaluate the tree.
pub open spec fn spec_outcome(s: Seq<char>) -> Outcome {
    match parse_of(s) {
        Ok(t) => match spec_eval(t) {
            Some(b) => Outcome::Val(b),
            None => Outcome::Unsupported,
        },
        Err(d) => Outcome::Syntax(d),
    }
}

/// The fixed failure message that documents the supported grammar subset.
pub open spec fn unsupported_msg() -> Seq<char> {
    "expression contains an unsupported construct or character; supported: the operators + - * / & | ^ << >>, parentheses ( ), whitespace, and unsuffixed decimal integer and floating-point literals"@
}

/// The failure message for text that does not parse: a fixed prefix followed
/// by the parser's diagnostic.
pub open spec fn syntax_msg(diag: Seq<char>) -> Seq<char> {
    "expression syntax error: "@ + diag
}

/// Evaluates the expression text.
///
/// Success returns the computed double-precision value. Text that does not
/// parse gives a failure whose message carries the parser diagnostic; a tree
/// holding any construct outside the supported subset gives a failure whose
/// message documents that subset.
pub fn eval(expr: &str) -> (r: Result<Num, ParseError>)
    ensures
        (spec_outcome(expr@) matches Outcome::Val(b) ==> (r matches Ok(n) && n.bits == b)),
        (r matches Ok(n) ==> spec_outcome(expr@) == Outcome::Val(n.bits)),
        (spec_outcome(expr@) == Outcome::Unsupported ==> (r matches Err(e) && e@
            == unsupported_msg())),
        (spec_outcome(expr@) matches Outcome::Syntax(d) ==> (r matches Err(e) && e@ == syntax_msg(
            d,
        ) && e@.len() > 0)),
        ((parse_of(expr@) matches Ok(t) && supported(t)) ==> r is Ok),
{
    match parse_text(expr) {
        Ok(node) => match eval_node(&node) {
            Some(bits) => Ok(Num { bits }),
            None => Err(
                ParseError::new(
                    "expression contains an unsupported construct or character; supported: the operators + - * / & | ^ << >>, parentheses ( ), whitespace, and unsuffixed decimal integer and floating-point literals",
                ),
            ),
        },
        Err(diag) => {
            let mut msg = String::from_str("expression syntax error: ");
            proof {
                reveal_strlit("expression syntax error: ");
            }
            msg.append(diag.as_str());
            Err(ParseError::new(msg.as_str()))
        },
    }
}

/// Evaluation is pure: the outcome is a function of the input text alone, so
/// identical input text yields an identical result across repeated calls.
pub proof fn lemma_eval_pure(s1: Seq<char>, s2: Seq<char>)
    requires
        s1 == s2,
    ensures
        spec_outcome(s1) == spec_outcome(s2),
{
}

} // verus!
